//! Conversion configuration: the active colour-distance strategy and the
//! resampling filter used by the downsampler.

use vstd::prelude::*;

verus! {

/// The perceptual colour-distance strategy used when matching pixels to
/// palette blocks. Exactly one strategy is active per conversion run.
#[derive(Clone, Copy, Debug, PartialEq, Eq, Structural)]
pub enum ColourSpace {
    Cie2000,
    Cie1976,
    Cmc,
    Euclidean,
}

/// The resampling filter applied when downsampling the source image.
#[derive(Clone, Copy, Debug, PartialEq, Eq, Structural)]
pub enum DownsamplingMethod {
    Nearest,
    Triangle,
    CatmullRom,
    Gaussian,
    Lanczos3,
}

/// Options for a conversion run.
#[derive(Clone, Copy, Debug, PartialEq, Eq, Structural)]
pub struct Config {
    pub colour_space: ColourSpace,
    pub downsampling: DownsamplingMethod,
}

/// The documented defaults: CIE2000 distance, nearest-neighbour resampling.
pub open spec fn default_config() -> Config {
    Config { colour_space: ColourSpace::Cie2000, downsampling: DownsamplingMethod::Nearest }
}

impl Default for Config {
    fn default() -> (r: Self)
        ensures
            r == default_config(),
    {
        Config { colour_space: ColourSpace::Cie2000, downsampling: DownsamplingMethod::Nearest }
    }
}

/// The configuration a run actually uses: the one supplied, or the defaults.
pub open spec fn effective_config(c: Option<Config>) -> Config {
    match c {
        Some(c) => c,
        None => default_config(),
    }
}

/// A builder for `Config`: any field left unset falls back to the
/// documented default.
#[derive(Clone, Copy, Debug, PartialEq, Eq, Structural)]
pub struct ConfigBuilder {
    pub colour_space: Option<ColourSpace>,
    pub downsampling: Option<DownsamplingMethod>,
}

impl ConfigBuilder {
    /// A builder with every field unset.
    pub fn new() -> (r: ConfigBuilder)
        ensures
            r.colour_space is None,
            r.downsampling is None,
    {
        ConfigBuilder { colour_space: None, downsampling: None }
    }

    /// Sets the colour-distance strategy.
    pub fn colour_space(self, v: ColourSpace) -> (r: ConfigBuilder)
        ensures
            r.colour_space == Some(v),
            r.downsampling == self.downsampling,
    {
        ConfigBuilder { colour_space: Some(v), downsampling: self.downsampling }
    }

    /// Sets the resampling filter.
    pub fn downsampling(self, v: DownsamplingMethod) -> (r: ConfigBuilder)
        ensures
            r.downsampling == Some(v),
            r.colour_space == self.colour_space,
    {
        ConfigBuilder { colour_space: self.colour_space, downsampling: Some(v) }
    }

    /// The finished configuration: each unset field takes its default.
    pub fn build(self) -> (r: Config)
        ensures
            r.colour_space == match self.colour_space {
                Some(c) => c,
                None => default_config().colour_space,
            },
            r.downsampling == match self.downsampling {
                Some(d) => d,
                None => default_config().downsampling,
            },
    {
        Config {
            colour_space: match self.colour_space {
                Some(c) => c,
                None => ColourSpace::Cie2000,
            },
            downsampling: match self.downsampling {
                Some(d) => d,
                None => DownsamplingMethod::Nearest,
            },
        }
    }
}

} // verus!
