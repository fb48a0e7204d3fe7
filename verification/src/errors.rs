//! Error types for Luna4.
//!
//! Every error condition of planet creation, operation or resource
//! management is a variant of [`Luna4Error`] carrying a descriptive message.
use vstd::prelude::*;

verus! {

/// Luna4-specific errors.
#[derive(Debug, Clone)]
pub enum Luna4Error {
    /// Failed to create the planet wrapper
    PlanetCreation(String),
    /// Invalid energy cell configuration
    EnergyError(String),
    /// Resource generation error
    ResourceError(String),
    /// Phase timing error
    PhaseError(String),
    /// General operational error
    OperationalError(String),
}

impl Luna4Error {
    /// The text that describes the error: a prefix naming its kind, then
    /// the detail message it carries.
    pub open spec fn message_text(&self) -> Seq<char> {
        match self {
            Luna4Error::PlanetCreation(m) => "Failed to create planet: "@ + m@,
            Luna4Error::EnergyError(m) => "Invalid energy configuration: "@ + m@,
            Luna4Error::ResourceError(m) => "Resource generation failed: "@ + m@,
            Luna4Error::PhaseError(m) => "Lunar phase timing error: "@ + m@,
            Luna4Error::OperationalError(m) => "Operational error: "@ + m@,
        }
    }

    /// Renders the error for people to read.
    pub fn message(&self) -> (r: String)
        ensures
            r@ == self.message_text(),
    {
        let (prefix, detail) = match self {
            Luna4Error::PlanetCreation(m) => ("Failed to create planet: ", m),
            Luna4Error::EnergyError(m) => ("Invalid energy configuration: ", m),
            Luna4Error::ResourceError(m) => ("Resource generation failed: ", m),
            Luna4Error::PhaseError(m) => ("Lunar phase timing error: ", m),
            Luna4Error::OperationalError(m) => ("Operational error: ", m),
        };
        let mut r = String::from_str(prefix);
        r.append(detail.as_str());
        r
    }
}

} // verus!
