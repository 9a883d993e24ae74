use vstd::prelude::*;
use crate::error::Error;
use crate::gpu::Size;
use crate::ownership::ContextId;

verus! {

/// The display backends that are probed, in the order of their variants.
#[derive(Clone, Copy, Debug, PartialEq, Eq, Structural)]
pub enum Backend {
    /// The X11 native binding, tried first.
    Glx,
    /// The portable binding, tried when the first one fails.
    Egl,
}

/// Which backend to probe next, given the one whose probe failed last
/// (`None` before the first probe).
pub open spec fn next_backend_spec(failed: Option<Backend>) -> Result<Backend, Error> {
    match failed {
        None => Ok(Backend::Glx),
        Some(Backend::Glx) => Ok(Backend::Egl),
        Some(Backend::Egl) => Err(Error::NoDisplayBackend),
    }
}

/// The fallback policy, one probe at a time: the caller probes the backend
/// it is given and, if that fails, asks again with it.
pub fn next_backend(failed: Option<Backend>) -> (r: Result<Backend, Error>)
    ensures
        r == next_backend_spec(failed),
{
    match failed {
        None => Ok(Backend::Glx),
        Some(Backend::Glx) => Ok(Backend::Egl),
        Some(Backend::Egl) => Err(Error::NoDisplayBackend),
    }
}

/// The backend that the policy settles on when the outcome of each probe is
/// known beforehand.
pub open spec fn select_backend_spec(glx_attaches: bool, egl_attaches: bool) -> Result<Backend, Error> {
    if glx_attaches {
        Ok(Backend::Glx)
    } else if egl_attaches {
        Ok(Backend::Egl)
    } else {
        Err(Error::NoDisplayBackend)
    }
}

/// Applies the fallback policy to the outcomes of both probes.
pub fn select_backend(glx_attaches: bool, egl_attaches: bool) -> (r: Result<Backend, Error>)
    ensures
        r == select_backend_spec(glx_attaches, egl_attaches),
{
    let first = next_backend(None);
    match first {
        Ok(Backend::Glx) if glx_attaches => first,
        Ok(tried) => {
            let second = next_backend(Some(tried));
            match second {
                Ok(Backend::Egl) if egl_attaches => second,
                Ok(last) => next_backend(Some(last)),
                Err(e) => Err(e),
            }
        },
        Err(e) => Err(e),
    }
}

/// What the selection reads of one surface configuration that the display
/// offers.
#[derive(Clone, Copy, Debug, PartialEq, Eq, Structural)]
pub struct ConfigInfo {
    /// The configuration can back a window surface.
    pub window_surface: bool,
    /// The configuration is compatible with the native window.
    pub window_compatible: bool,
}

impl ConfigInfo {
    pub open spec fn usable_spec(self) -> bool {
        self.window_surface && self.window_compatible
    }

    /// Whether a window surface for the native window can be made with it.
    #[verifier::when_used_as_spec(usable_spec)]
    pub fn usable(self) -> (r: bool)
        ensures
            r == self.usable_spec(),
    {
        self.window_surface && self.window_compatible
    }
}

/// `i` is the position of the first usable configuration of `offered`.
pub open spec fn first_usable(offered: Seq<ConfigInfo>, i: int) -> bool {
    &&& 0 <= i < offered.len()
    &&& offered[i].usable_spec()
    &&& forall|j: int| 0 <= j < i ==> !(#[trigger] offered[j]).usable_spec()
}

/// Picks the first usable configuration, in the order in which the display
/// enumerated them, and fails with `NoCompatibleConfig` exactly when none is
/// usable.
pub fn select_config(offered: &Vec<ConfigInfo>) -> (r: Result<usize, Error>)
    ensures
        match r {
            Ok(i) => first_usable(offered@, i as int),
            Err(e) => e == Error::NoCompatibleConfig
                && forall|j: int| 0 <= j < offered@.len() ==> !(#[trigger] offered@[j]).usable_spec(),
        },
{
    let mut i: usize = 0;
    while i < offered.len()
        invariant
            i <= offered@.len(),
            forall|j: int| 0 <= j < i ==> !(#[trigger] offered@[j]).usable_spec(),
        decreases offered@.len() - i,
    {
        if offered[i].usable() {
            return Ok(i);
        }
        i += 1;
    }
    Err(Error::NoCompatibleConfig)
}

/// The first usable configuration is unique, so the selection is a function
/// of the enumeration alone: on the same list it gives the same position.
pub proof fn lemma_first_usable_unique(offered: Seq<ConfigInfo>, i: int, j: int)
    requires
        first_usable(offered, i),
        first_usable(offered, j),
    ensures
        i == j,
{
    if i < j {
        assert(!offered[i].usable_spec());
    } else if j < i {
        assert(!offered[j].usable_spec());
    }
}

/// One step of startup, for the driver to carry out.
#[derive(Clone, Copy, Debug, PartialEq, Eq)]
pub enum StartupStep {
    /// Attach to the native display through this backend.
    Connect(Backend),
    /// Enumerate the configurations and select one.
    ChooseConfig,
    /// Create a context, in the share group of `shares_with` if that is
    /// given.
    CreateContext { context: ContextId, shares_with: Option<ContextId> },
    /// Both contexts exist: the surfaces and the shared objects come next.
    Ready,
}

/// Startup begins with a probe of the first backend.
pub open spec fn first_step_spec() -> StartupStep {
    StartupStep::Connect(Backend::Glx)
}

/// What follows a step, given whether the driver could carry it out. The
/// compute context is created first, and the presentation context joins its
/// share group.
pub open spec fn next_step_spec(done: StartupStep, succeeded: bool) -> Result<StartupStep, Error> {
    match done {
        StartupStep::Connect(backend) => if succeeded {
            Ok(StartupStep::ChooseConfig)
        } else {
            match next_backend_spec(Some(backend)) {
                Ok(next) => Ok(StartupStep::Connect(next)),
                Err(e) => Err(e),
            }
        },
        StartupStep::ChooseConfig => if succeeded {
            Ok(StartupStep::CreateContext { context: ContextId::Compute, shares_with: None })
        } else {
            Err(Error::NoCompatibleConfig)
        },
        StartupStep::CreateContext { context, .. } => if !succeeded {
            Err(Error::ContextCreationFailed)
        } else if context == ContextId::Compute {
            Ok(
                StartupStep::CreateContext {
                    context: ContextId::Presentation,
                    shares_with: Some(ContextId::Compute),
                },
            )
        } else {
            Ok(StartupStep::Ready)
        },
        StartupStep::Ready => Ok(StartupStep::Ready),
    }
}

/// The first step of startup.
pub fn first_step() -> (r: StartupStep)
    ensures
        r == first_step_spec(),
{
    match next_backend(None) {
        Ok(backend) => StartupStep::Connect(backend),
        Err(_) => StartupStep::Ready,
    }
}

/// The step that follows `done`, or the error that ends startup.
pub fn next_step(done: StartupStep, succeeded: bool) -> (r: Result<StartupStep, Error>)
    ensures
        r == next_step_spec(done, succeeded),
{
    match done {
        StartupStep::Connect(backend) => {
            if succeeded {
                Ok(StartupStep::ChooseConfig)
            } else {
                match next_backend(Some(backend)) {
                    Ok(next) => Ok(StartupStep::Connect(next)),
                    Err(e) => Err(e),
                }
            }
        },
        StartupStep::ChooseConfig => {
            if succeeded {
                Ok(StartupStep::CreateContext { context: ContextId::Compute, shares_with: None })
            } else {
                Err(Error::NoCompatibleConfig)
            }
        },
        StartupStep::CreateContext { context, .. } => {
            if !succeeded {
                Err(Error::ContextCreationFailed)
            } else {
                match context {
                    ContextId::Compute => Ok(
                        StartupStep::CreateContext {
                            context: ContextId::Presentation,
                            shares_with: Some(ContextId::Compute),
                        },
                    ),
                    ContextId::Presentation => Ok(StartupStep::Ready),
                }
            }
        },
        StartupStep::Ready => Ok(StartupStep::Ready),
    }
}

pub open spec fn surface_size_spec(context: ContextId, window: Size) -> Size {
    match context {
        ContextId::Presentation => window,
        ContextId::Compute => Size { width: 1, height: 1 },
    }
}

/// The size that the surface of a context is created with: the window's for
/// the presentation context, a single pixel for the compute context, whose
/// surface only serves to make it current.
#[verifier::when_used_as_spec(surface_size_spec)]
pub fn surface_size(context: ContextId, window: Size) -> (r: Size)
    ensures
        r == surface_size_spec(context, window),
        window.valid() ==> r.valid(),
{
    match context {
        ContextId::Presentation => window,
        ContextId::Compute => Size { width: 1, height: 1 },
    }
}

} // verus!
