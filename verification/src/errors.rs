//! Error types and the pluggable dispatch-error translation.

use vstd::prelude::*;

verus! {

/// Errors of the registration flow itself.
#[derive(Clone, Copy, PartialEq, Eq, Structural, Debug)]
pub enum Error {
    /// The asset is already registered.
    AssetAlreadyRegistered,
    /// It is impossible to register a local asset as a foreign one.
    AttemptToRegisterLocalAsset,
    /// The given asset ID could not be converted into the current encoding.
    BadAssetId,
}

/// An error returned by a dispatched operation: either an error of this
/// transactor, an encoded error of some other module (such as the NFT
/// engine), a rejected origin, or an unclassified failure.
#[derive(Clone, Copy, PartialEq, Eq, Debug)]
pub enum DispatchError {
    /// An error of the transactor itself.
    Xnft(Error),
    /// An error of the module with the given index, as an encoded value and
    /// an optional diagnostic message.
    Module { index: u8, error: u32, message: Option<&'static str> },
    /// The origin is not allowed to perform the operation.
    BadOrigin,
    /// An unclassified failure.
    Other(&'static str),
}

/// Protocol errors surfaced to the outer executor.
#[derive(Clone, Copy, PartialEq, Eq, Debug)]
pub enum XcmError {
    /// The asset is not one this transactor handles.
    AssetNotHandled,
    /// The asset identifier resolves to no known class.
    AssetIdConversionFailed,
    /// The instance locator resolves to no usable instance.
    InstanceConversionFailed,
    /// The locator of an account resolves to no local account.
    AccountIdConversionFailed,
    /// The holder may not move this instance.
    NoPermission,
    /// The instance is already represented here and cannot be credited again.
    NotDepositable,
    /// The origin is not allowed to perform the operation.
    BadOrigin,
    /// The asset does not exist in the engine.
    AssetNotFound,
    /// A module failed for a reason carried only as a diagnostic message.
    FailedToTransactAsset(&'static str),
}

/// The translation applied to a dispatch error no registered converter
/// understands: rejected origins keep their meaning, everything else becomes
/// a generic failure carrying the best available message.
pub open spec fn spec_fallback_convert(error: DispatchError) -> XcmError {
    match error {
        DispatchError::BadOrigin => XcmError::BadOrigin,
        DispatchError::Module { index: _, error: _, message } => match message {
            Some(m) => XcmError::FailedToTransactAsset(m),
            None => XcmError::FailedToTransactAsset("Unknown module error"),
        },
        DispatchError::Xnft(_) => XcmError::FailedToTransactAsset("xnft error"),
        DispatchError::Other(m) => XcmError::FailedToTransactAsset(m),
    }
}

/// Translates a dispatch error no registered converter understands.
pub fn fallback_convert(error: DispatchError) -> (r: XcmError)
    ensures
        r == spec_fallback_convert(error),
{
    match error {
        DispatchError::BadOrigin => XcmError::BadOrigin,
        DispatchError::Module { index: _, error: _, message } => match message {
            Some(m) => XcmError::FailedToTransactAsset(m),
            None => XcmError::FailedToTransactAsset("Unknown module error"),
        },
        DispatchError::Xnft(_) => XcmError::FailedToTransactAsset("xnft error"),
        DispatchError::Other(m) => XcmError::FailedToTransactAsset(m),
    }
}

/// A converter for the errors of one specific module: it knows the module's
/// index and gives each encoded error value a protocol meaning.
pub trait DispatchErrorConvert {
    /// The index of the module whose errors this converter understands.
    spec fn spec_module_index() -> u8;

    /// What the converter returns for each encoded error value.
    spec fn spec_convert(error: u32) -> XcmError;

    /// The index of the module whose errors this converter understands.
    fn module_index() -> (r: u8)
        ensures
            r == Self::spec_module_index(),
    ;

    /// Translates one encoded error value of this converter's module.
    fn convert(error: u32) -> (r: XcmError)
        ensures
            r == Self::spec_convert(error),
    ;
}

/// An ordered list of module-error converters, tried in sequence, falling
/// back to [`spec_fallback_convert`] when none understands the error.
pub trait DispatchErrorsConvert {
    /// What the list returns for each dispatch error.
    spec fn spec_convert(error: DispatchError) -> XcmError;

    /// Translates a dispatch error into a protocol error.
    fn convert(error: DispatchError) -> (r: XcmError)
        ensures
            r == Self::spec_convert(error),
    ;
}

impl DispatchErrorsConvert for () {
    open spec fn spec_convert(error: DispatchError) -> XcmError {
        spec_fallback_convert(error)
    }

    fn convert(error: DispatchError) -> (r: XcmError) {
        fallback_convert(error)
    }
}

impl<A: DispatchErrorConvert> DispatchErrorsConvert for (A,) {
    open spec fn spec_convert(error: DispatchError) -> XcmError {
        match error {
            DispatchError::Module { index, error: code, message: _ } => if index
                == A::spec_module_index() {
                A::spec_convert(code)
            } else {
                spec_fallback_convert(error)
            },
            _ => spec_fallback_convert(error),
        }
    }

    fn convert(error: DispatchError) -> (r: XcmError) {
        match error {
            DispatchError::Module { index, error: code, message: _ } => if index
                == A::module_index() {
                A::convert(code)
            } else {
                fallback_convert(error)
            },
            _ => fallback_convert(error),
        }
    }
}

impl<A: DispatchErrorConvert, B: DispatchErrorConvert> DispatchErrorsConvert for (A, B) {
    open spec fn spec_convert(error: DispatchError) -> XcmError {
        match error {
            DispatchError::Module { index, error: code, message: _ } => if index
                == A::spec_module_index() {
                A::spec_convert(code)
            } else if index == B::spec_module_index() {
                B::spec_convert(code)
            } else {
                spec_fallback_convert(error)
            },
            _ => spec_fallback_convert(error),
        }
    }

    fn convert(error: DispatchError) -> (r: XcmError) {
        match error {
            DispatchError::Module { index, error: code, message: _ } => if index
                == A::module_index() {
                A::convert(code)
            } else if index == B::module_index() {
                B::convert(code)
            } else {
                fallback_convert(error)
            },
            _ => fallback_convert(error),
        }
    }
}

} // verus!
