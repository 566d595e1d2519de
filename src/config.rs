use vstd::prelude::*;

verus! {

/// The largest picture side accepted: three bytes per pixel of a row, and one
/// slot per row, must stay far inside memory.
pub const MAX_RESOLUTION: usize = 100000;

/// The degrees for which an update rule is defined.
pub open spec fn supported_degree(d: nat) -> bool {
    d == 1 || d == 2 || d == 5 || d == 7
}

/// Why a configuration was refused.
#[derive(Clone, Copy, Debug, PartialEq, Eq, Structural)]
pub enum ConfigError {
    /// The degree is not one of 1, 2, 5 and 7.
    UnsupportedDegree,
    /// The picture has no rows.
    ZeroResolution,
    /// The picture is wider than `MAX_RESOLUTION`.
    ResolutionTooLarge,
    /// No worker would compute anything.
    ZeroThreads,
}

/// The parameters of one run: the polynomial's degree, the picture's side in
/// pixels, and the number of workers. Fixed once made.
#[derive(Clone, Copy, Debug, PartialEq, Eq, Structural)]
pub struct Config {
    pub degree: usize,
    pub resolution: usize,
    pub threads: usize,
}

impl Config {
    /// A configuration that a run can use.
    pub open spec fn valid(&self) -> bool {
        &&& supported_degree(self.degree as nat)
        &&& 0 < self.resolution <= MAX_RESOLUTION
        &&& self.threads > 0
    }

    /// Checks the three parameters, in the order degree, resolution, threads,
    /// and reports the first that is out of range.
    pub fn new(degree: usize, resolution: usize, threads: usize) -> (r: Result<Config, ConfigError>)
        ensures
            r is Ok <==> supported_degree(degree as nat) && 0 < resolution <= MAX_RESOLUTION
                && threads > 0,
            r matches Ok(c) ==> c.valid() && c.degree == degree && c.resolution == resolution
                && c.threads == threads,
            r == Err::<Config, ConfigError>(ConfigError::UnsupportedDegree) <==> !supported_degree(
                degree as nat,
            ),
            r == Err::<Config, ConfigError>(ConfigError::ZeroResolution) <==> supported_degree(
                degree as nat,
            ) && resolution == 0,
            r == Err::<Config, ConfigError>(ConfigError::ResolutionTooLarge) <==> supported_degree(
                degree as nat,
            ) && resolution > MAX_RESOLUTION,
            r == Err::<Config, ConfigError>(ConfigError::ZeroThreads) <==> supported_degree(
                degree as nat,
            ) && 0 < resolution <= MAX_RESOLUTION && threads == 0,
    {
        if !(degree == 1 || degree == 2 || degree == 5 || degree == 7) {
            Err(ConfigError::UnsupportedDegree)
        } else if resolution == 0 {
            Err(ConfigError::ZeroResolution)
        } else if resolution > MAX_RESOLUTION {
            Err(ConfigError::ResolutionTooLarge)
        } else if threads == 0 {
            Err(ConfigError::ZeroThreads)
        } else {
            Ok(Config { degree, resolution, threads })
        }
    }
}

} // verus!
