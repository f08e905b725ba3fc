//! Installing the backend, once.

use vstd::prelude::*;
use crate::backend::spec_initial_state;
use crate::backend::BackendError;
use crate::backend::LoopConfig;
use crate::backend::SlintBackend3DS;
use crate::frame_buffer::FrameBuffer;

verus! {

/// The record of whether a backend has been installed. A process keeps one.
pub struct PlatformRegistry {
    installed: bool,
}

impl PlatformRegistry {
    /// Whether a backend has been installed.
    pub closed spec fn spec_is_installed(self) -> bool {
        self.installed
    }

    /// Makes the record of a process in which no backend has been installed.
    pub fn new() -> (registry: Self)
        ensures
            !registry.spec_is_installed(),
    {
        PlatformRegistry { installed: false }
    }

    /// Tells whether a backend has been installed.
    pub fn is_installed(&self) -> (installed: bool)
        ensures
            installed == self.spec_is_installed(),
    {
        self.installed
    }
}

/// What [`init`] returns for a registry in the given state, a configuration,
/// and a frame buffer: the error, or `None` where the backend is installed.
pub open spec fn spec_init_error(
    registry: PlatformRegistry,
    config: LoopConfig,
    frame: FrameBuffer,
) -> Option<BackendError> {
    if registry.spec_is_installed() {
        Some(BackendError::AlreadyInitialized)
    } else if frame.spec_surface() != config.surface {
        Some(BackendError::SurfaceMismatch)
    } else {
        None
    }
}

/// Installs the backend and hands it out. A process can do this once: a
/// second installation is refused, whatever it is called with. An
/// installation with a frame buffer that does not match the configured
/// surface is refused too, and leaves the registry as it was.
pub fn init(
    registry: &mut PlatformRegistry,
    config: LoopConfig,
    frame: FrameBuffer,
    start_time: u64,
) -> (installed: Result<SlintBackend3DS, BackendError>)
    ensures
        installed is Ok <==> spec_init_error(*old(registry), config, frame) is None,
        installed matches Err(error) ==> spec_init_error(*old(registry), config, frame) == Some(
            error,
        ) && *final(registry) == *old(registry),
        installed matches Ok(backend) ==> {
            &&& spec_init_error(*old(registry), config, frame) is None
            &&& final(registry).spec_is_installed()
            &&& backend.spec_config() == config
            &&& backend.spec_state() == spec_initial_state(start_time)
            &&& backend.spec_frame() == frame
        },
{
    if registry.installed {
        return Err(BackendError::AlreadyInitialized);
    }
    match SlintBackend3DS::new(config, frame, start_time) {
        Ok(backend) => {
            registry.installed = true;
            Ok(backend)
        },
        Err(error) => Err(error),
    }
}

/// After one successful installation every further one is refused.
pub proof fn lemma_second_init_is_refused(
    registry: PlatformRegistry,
    config: LoopConfig,
    frame: FrameBuffer,
)
    requires
        registry.spec_is_installed(),
    ensures
        spec_init_error(registry, config, frame) == Some(BackendError::AlreadyInitialized),
{
}

} // verus!
