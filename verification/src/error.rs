//! Errors of frame import and synchronization.

use vstd::prelude::*;
use vstd::string::*;

use crate::sync::SyncMechanism;
use crate::text::{join2, join3};

verus! {

/// Why a particular interop path is not available.
#[derive(Clone, Copy, Debug, PartialEq, Eq, Structural)]
#[non_exhaustive]
pub enum UnsupportedReason {
    /// The platform code path exists but has not been implemented yet.
    PlatformNotImplemented,
    /// No wgpu backend could be detected on the host device.
    HostBackendUnavailable,
    /// The frame type requires a different wgpu backend than the host is using
    /// (e.g. `VulkanExternalImage` on a Metal device).
    HostBackendMismatch,
    /// A native frame variant (e.g. `VulkanExternalImage`) is defined in the
    /// API but the corresponding import logic is not yet implemented.
    NativeImportNotYetImplemented,
}

impl UnsupportedReason {
    /// The variant's name.
    pub open spec fn spec_name(self) -> &'static str {
        match self {
            UnsupportedReason::PlatformNotImplemented => "PlatformNotImplemented",
            UnsupportedReason::HostBackendUnavailable => "HostBackendUnavailable",
            UnsupportedReason::HostBackendMismatch => "HostBackendMismatch",
            UnsupportedReason::NativeImportNotYetImplemented => "NativeImportNotYetImplemented",
        }
    }

    /// The variant's name.
    #[verifier::when_used_as_spec(spec_name)]
    pub fn name(self) -> (r: &'static str)
        ensures
            r == self.name(),
    {
        match self {
            UnsupportedReason::PlatformNotImplemented => "PlatformNotImplemented",
            UnsupportedReason::HostBackendUnavailable => "HostBackendUnavailable",
            UnsupportedReason::HostBackendMismatch => "HostBackendMismatch",
            UnsupportedReason::NativeImportNotYetImplemented => "NativeImportNotYetImplemented",
        }
    }
}

/// Errors that can occur during frame import or synchronization.
#[derive(Debug)]
#[non_exhaustive]
pub enum InteropError {
    /// The requested interop path is not supported for the given reason.
    Unsupported(UnsupportedReason),
    /// The wgpu backend on the host device does not match what the frame
    /// source requires.
    BackendMismatch { expected: &'static str, actual: &'static str },
    /// The frame data is invalid (e.g. a zero-valued FBO id).
    InvalidFrame(&'static str),
    /// The synchronizer received a [`SyncMechanism`] it does not handle.
    UnsupportedSynchronization(SyncMechanism),
    /// A surfman-level error occurred while preparing the frame.
    Surfman(String),
    /// A Vulkan API call failed during import.
    Vulkan(String),
    /// A Metal API call failed during import.
    Metal(String),
    /// A GL API call failed during import.
    OpenGl(String),
    /// A D3D12 or DXGI API call failed during import.
    Dx12(String),
    /// An ANGLE EGL API call failed during D3D11 share-handle import.
    Angle(String),
}

impl InteropError {
    /// What a reader is shown of this error.
    pub open spec fn message_text(&self) -> Seq<char> {
        match *self {
            InteropError::Unsupported(reason) => "unsupported interop path: "@ + reason.name()@,
            InteropError::BackendMismatch { expected, actual } =>
                "backend mismatch: expected "@ + expected@ + ", found "@ + actual@,
            InteropError::InvalidFrame(what) => "invalid frame: "@ + what@,
            InteropError::UnsupportedSynchronization(mechanism) =>
                "unsupported synchronization mechanism: "@ + mechanism.name()@,
            InteropError::Surfman(cause) => "surfman interop failed: "@ + cause@,
            InteropError::Vulkan(cause) => "vulkan interop failed: "@ + cause@,
            InteropError::Metal(cause) => "metal interop failed: "@ + cause@,
            InteropError::OpenGl(cause) => "OpenGL interop failed: "@ + cause@,
            InteropError::Dx12(cause) => "D3D12 interop failed: "@ + cause@,
            InteropError::Angle(cause) => "ANGLE EGL interop failed: "@ + cause@,
        }
    }

    /// What a reader is shown of this error.
    pub fn message(&self) -> (r: String)
        ensures
            r@ == self.message_text(),
    {
        match self {
            InteropError::Unsupported(reason) =>
                join2("unsupported interop path: ", reason.name()),
            InteropError::BackendMismatch { expected, actual } => {
                let mut out = join3("backend mismatch: expected ", expected, ", found ");
                out.append(actual);
                out
            },
            InteropError::InvalidFrame(what) => join2("invalid frame: ", what),
            InteropError::UnsupportedSynchronization(mechanism) =>
                join2("unsupported synchronization mechanism: ", mechanism.name()),
            InteropError::Surfman(cause) => join2("surfman interop failed: ", cause.as_str()),
            InteropError::Vulkan(cause) => join2("vulkan interop failed: ", cause.as_str()),
            InteropError::Metal(cause) => join2("metal interop failed: ", cause.as_str()),
            InteropError::OpenGl(cause) => join2("OpenGL interop failed: ", cause.as_str()),
            InteropError::Dx12(cause) => join2("D3D12 interop failed: ", cause.as_str()),
            InteropError::Angle(cause) => join2("ANGLE EGL interop failed: ", cause.as_str()),
        }
    }
}

/// The names that reports show tell the reasons apart.
pub proof fn reasons_are_told_by_name(reason: UnsupportedReason)
    ensures
        reason.name()@ == "PlatformNotImplemented"@ <==> reason is PlatformNotImplemented,
        reason.name()@ == "HostBackendUnavailable"@ <==> reason is HostBackendUnavailable,
        reason.name()@ == "HostBackendMismatch"@ <==> reason is HostBackendMismatch,
        reason.name()@ == "NativeImportNotYetImplemented"@ <==> reason
            is NativeImportNotYetImplemented,
{
    reveal_strlit("PlatformNotImplemented");
    reveal_strlit("HostBackendUnavailable");
    reveal_strlit("HostBackendMismatch");
    reveal_strlit("NativeImportNotYetImplemented");
    assert("PlatformNotImplemented"@[0] == 'P' && "HostBackendUnavailable"@[0] == 'H');
    assert("PlatformNotImplemented"@.len() == 22 && "HostBackendUnavailable"@.len() == 22);
    assert("HostBackendMismatch"@.len() == 19);
    assert("NativeImportNotYetImplemented"@.len() == 29);
}

/// An error shows why it came about: its message ends in the cause, in full, and
/// something stands before it.
pub proof fn message_ends_in_the_cause(error: &InteropError, shown: String)
    requires
        call_ensures(InteropError::message, (error,), shown),
    ensures
        ({
            let cause = match *error {
                InteropError::Unsupported(reason) => reason.name()@,
                InteropError::BackendMismatch { actual, .. } => actual@,
                InteropError::InvalidFrame(what) => what@,
                InteropError::UnsupportedSynchronization(mechanism) => mechanism.name()@,
                InteropError::Surfman(cause) => cause@,
                InteropError::Vulkan(cause) => cause@,
                InteropError::Metal(cause) => cause@,
                InteropError::OpenGl(cause) => cause@,
                InteropError::Dx12(cause) => cause@,
                InteropError::Angle(cause) => cause@,
            };
            &&& shown@.len() > cause.len()
            &&& shown@.skip(shown@.len() - cause.len()) == cause
        }),
{
    reveal_strlit("unsupported interop path: ");
    reveal_strlit("backend mismatch: expected ");
    reveal_strlit(", found ");
    reveal_strlit("invalid frame: ");
    reveal_strlit("unsupported synchronization mechanism: ");
    reveal_strlit("surfman interop failed: ");
    reveal_strlit("vulkan interop failed: ");
    reveal_strlit("metal interop failed: ");
    reveal_strlit("OpenGL interop failed: ");
    reveal_strlit("D3D12 interop failed: ");
    reveal_strlit("ANGLE EGL interop failed: ");
}

/// The part of the bridge that failed shows in the message: errors of different
/// APIs never read the same, even where their causes do.
pub proof fn message_names_the_api(cause: String)
    ensures
        "surfman "@.is_prefix_of(InteropError::Surfman(cause).message_text()),
        "vulkan "@.is_prefix_of(InteropError::Vulkan(cause).message_text()),
        "metal "@.is_prefix_of(InteropError::Metal(cause).message_text()),
        "OpenGL "@.is_prefix_of(InteropError::OpenGl(cause).message_text()),
        "D3D12 "@.is_prefix_of(InteropError::Dx12(cause).message_text()),
        "ANGLE "@.is_prefix_of(InteropError::Angle(cause).message_text()),
{
    reveal_strlit("surfman ");
    reveal_strlit("vulkan ");
    reveal_strlit("metal ");
    reveal_strlit("OpenGL ");
    reveal_strlit("D3D12 ");
    reveal_strlit("ANGLE ");
    reveal_strlit("surfman interop failed: ");
    reveal_strlit("vulkan interop failed: ");
    reveal_strlit("metal interop failed: ");
    reveal_strlit("OpenGL interop failed: ");
    reveal_strlit("D3D12 interop failed: ");
    reveal_strlit("ANGLE EGL interop failed: ");
}

} // verus!
