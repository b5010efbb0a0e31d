use vstd::prelude::*;

verus! {

/// Everything that can go wrong in the scanner logic itself. Transport
/// failures of the driver are reported by the caller that talks to it.
#[derive(Debug)]
pub enum ScannrsError {
    /// No enumerated device carries the requested name.
    CouldNotFindScanner { name: String },
    /// The device has no option with the requested name.
    OptionNotFound { name: String, option: String },
    /// A command-line option token is not of the form `key=value`.
    InvalidOption,
    /// The text given for an integer option is not a decimal `i32`.
    InvalidValue { key: Vec<u8>, value: String },
    /// The text given for a string option holds a NUL character.
    NulInValue { key: Vec<u8>, value: String },
    /// The sample buffer does not match the geometry the device reported.
    InvalidImageSize { width: u32, height: u32, buffer_size: usize, pixel_size: u32 },
    /// The hardware thread went away before it answered a request.
    Disconnected,
}

} // verus!
