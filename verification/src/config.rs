//! The configuration that the service is started with.

use vstd::prelude::*;

verus! {

/// What the service is started with and never changes afterwards.
///
/// The coordinates are held as the decimal text in which the page shows them.
#[derive(Debug)]
pub struct Configuration {
    /// The latitude, in decimal text.
    pub latitude: String,
    /// The longitude, in decimal text.
    pub longitude: String,
    /// The path of the data file.
    pub data_path: String,
}

/// The mathematical value of a [`Configuration`].
pub struct ConfigurationView {
    pub latitude: Seq<char>,
    pub longitude: Seq<char>,
    pub data_path: Seq<char>,
}

impl View for Configuration {
    type V = ConfigurationView;

    open spec fn view(&self) -> ConfigurationView {
        ConfigurationView {
            latitude: self.latitude@,
            longitude: self.longitude@,
            data_path: self.data_path@,
        }
    }
}

impl Configuration {
    /// A configuration of the given coordinates and data file.
    pub fn new(latitude: String, longitude: String, data_path: String) -> (cfg: Configuration)
        ensures
            cfg@ == (ConfigurationView {
                latitude: latitude@,
                longitude: longitude@,
                data_path: data_path@,
            }),
    {
        Configuration { latitude, longitude, data_path }
    }
}

} // verus!
