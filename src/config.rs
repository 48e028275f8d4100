//! Configuration records that the engine reads. Parsing them from TOML is left
//! to the caller.
use vstd::prelude::*;

verus! {

/// Where generated files go.
#[derive(Debug, Clone)]
pub struct OutputConfig {
    /// Output directory for generated files.
    pub dir: String,
    /// File write settings.
    pub files: FileConfig,
}

/// File size and age limits.
#[derive(Debug, Clone, Copy, PartialEq, Eq, Structural)]
pub struct FileConfig {
    /// Target file size before a new file is started.
    pub target_size_mb: u64,
    /// Maximum age for a file before a new one is started.
    pub max_age_seconds: u64,
}

/// Rotation settings of a writer.
#[derive(Debug, Clone, Copy, PartialEq, Eq, Structural)]
pub struct RotationConfig {
    /// Target file size for rotation.
    pub target_size_mb: u64,
    /// Flush interval for writer buffers.
    pub flush_interval_ms: Option<u64>,
    /// Maximum age for a file before rotation.
    pub max_age_seconds: Option<u64>,
}

/// Per-format options.
#[derive(Debug, Clone)]
pub struct FormatOptions {
    pub compression: Option<String>,
}

/// Output format selection.
#[derive(Debug, Clone)]
pub enum FormatConfig {
    Jsonl(FormatOptions),
    Parquet(FormatOptions),
}

/// Population files used when generating logs.
#[derive(Debug, Clone)]
pub struct PopulationRunConfig {
    /// Path to the population configuration (for selectors).
    pub actors_config_path: String,
    /// Path to the actor population file.
    pub actor_population_path: String,
}

/// Per-source output configuration.
#[derive(Debug, Clone)]
pub struct SourceOutputConfig {
    /// Optional subdirectory under the output directory.
    pub dir: Option<String>,
    /// Output format selection.
    pub format: FormatConfig,
}

/// Distribution that error rates are drawn from.
#[derive(Debug, Clone, Copy, PartialEq, Eq, Structural)]
pub enum ErrorRateDistribution {
    Uniform,
    Normal,
}

/// Configured time-of-day shape of a service profile.
#[derive(Debug, Clone, Copy, PartialEq, Eq, Structural)]
pub enum ServicePatternConfig {
    Constant,
    Diurnal,
    Bursty,
}

} // verus!
