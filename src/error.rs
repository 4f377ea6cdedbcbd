use vstd::prelude::*;

verus! {

/// Why a request to one of the remote services failed.
pub enum ClientError {
    /// The chat secret is not configured.
    Config { detail: String },
    /// The request never got a response; `attempts` sends were made.
    Transport { attempts: u32, detail: String },
    /// The service answered with a status outside 200..=299.
    Api { status: u16, body: String },
    /// A success response arrived but its body could not be read.
    BodyRead { detail: String },
    /// The response did not hold the expected field.
    Parse { detail: String },
    /// The local temporary file could not be written.
    Io { detail: String },
}

} // verus!
