use crate::error::CoreError;
use crate::window::has_area;
use vstd::prelude::*;

verus! {

/// What the platform is asked for when a window is made.
#[derive(Debug)]
pub struct WindowRequest {
    /// The text in the window's title bar.
    pub title: String,
    /// The width of the window's inner area.
    pub width: u32,
    /// The height of the window's inner area.
    pub height: u32,
    /// Whether the user may resize the window.
    pub resizable: bool,
}

/// The request for a resizable window with the title `title` and an inner
/// size of `width` by `height`.
///
/// A size without an area is refused with [`CoreError::ZeroSize`].
pub fn window_request(
    title: &str,
    width: u32,
    height: u32,
) -> (made: Result<WindowRequest, CoreError>)
    ensures
        match made {
            Ok(request) => {
                &&& has_area(width, height)
                &&& request.title@ == title@
                &&& request.width == width
                &&& request.height == height
                &&& request.resizable
            },
            Err(error) => !has_area(width, height) && error == CoreError::ZeroSize,
        },
{
    if width == 0 || height == 0 {
        Err(CoreError::ZeroSize)
    } else {
        Ok(WindowRequest { title: title.to_owned(), width, height, resizable: true })
    }
}

/// The programming interfaces a graphics context can speak.
#[derive(Clone, Copy, Debug, PartialEq, Eq, Structural)]
pub enum ContextApi {
    OpenGl,
    Gles,
}

/// The profiles of OpenGL.
#[derive(Clone, Copy, Debug, PartialEq, Eq, Structural)]
pub enum GlProfile {
    Core,
    Compatibility,
}

/// What a graphics context is asked to be.
#[derive(Clone, Copy, Debug, PartialEq, Eq, Structural)]
pub struct ContextRequest {
    pub api: ContextApi,
    pub major: u8,
    pub minor: u8,
    pub profile: GlProfile,
}

/// The context that every window of the runtime gets: OpenGL 2.1, core
/// profile.
pub fn context_request() -> (request: ContextRequest)
    ensures
        request == (ContextRequest {
            api: ContextApi::OpenGl,
            major: 2,
            minor: 1,
            profile: GlProfile::Core,
        }),
{
    ContextRequest { api: ContextApi::OpenGl, major: 2, minor: 1, profile: GlProfile::Core }
}

/// The size that a drawing surface is asked to have. Both sides are above
/// zero.
#[derive(Clone, Copy, Debug, PartialEq, Eq, Structural)]
pub struct SurfaceRequest {
    pub width: u32,
    pub height: u32,
}

/// The request for a drawing surface that fills a window with an inner size
/// of `width` by `height`.
///
/// A size without an area is refused with [`CoreError::ZeroSize`].
pub fn surface_request(width: u32, height: u32) -> (made: Result<SurfaceRequest, CoreError>)
    ensures
        match made {
            Ok(request) => has_area(width, height) && request == (SurfaceRequest { width, height }),
            Err(error) => !has_area(width, height) && error == CoreError::ZeroSize,
        },
{
    if width == 0 || height == 0 {
        Err(CoreError::ZeroSize)
    } else {
        Ok(SurfaceRequest { width, height })
    }
}

/// What the runtime reads of a framebuffer configuration that the display
/// offers.
#[derive(Clone, Copy, Debug, PartialEq, Eq, Structural)]
pub struct ConfigInfo {
    /// Whether the configuration can present sRGB framebuffers.
    pub srgb_capable: bool,
    /// The number of samples of its multisample buffer.
    pub num_samples: u8,
}

/// Whether some configuration of `configs` can be used at all.
pub open spec fn has_usable(configs: Seq<ConfigInfo>) -> bool {
    exists|at: int| 0 <= at < configs.len() && (#[trigger] configs[at]).srgb_capable
}

/// Whether the configuration at `at` is the one to take: it is sRGB
/// capable, no sRGB-capable configuration has more samples, and of those with
/// as many samples it is the one that was offered last.
pub open spec fn is_choice(configs: Seq<ConfigInfo>, at: int) -> bool {
    &&& 0 <= at < configs.len()
    &&& configs[at].srgb_capable
    &&& forall|other: int|
        0 <= other < configs.len() && (#[trigger] configs[other]).srgb_capable
            ==> configs[other].num_samples <= configs[at].num_samples
    &&& forall|later: int|
        at < later < configs.len() && (#[trigger] configs[later]).srgb_capable
            ==> configs[later].num_samples < configs[at].num_samples
}

/// At most one configuration is the one to take.
pub proof fn lemma_choice_is_unique(configs: Seq<ConfigInfo>, at: int, other: int)
    requires
        is_choice(configs, at),
        is_choice(configs, other),
    ensures
        at == other,
{
}

/// Picks the framebuffer configuration for a window: among the sRGB-capable
/// ones the one with the most samples, and the last such one where several
/// have as many.
///
/// Where none is sRGB capable the choice fails with
/// [`CoreError::NoSuitableConfig`].
pub fn choose_config(configs: &[ConfigInfo]) -> (chosen: Result<usize, CoreError>)
    ensures
        match chosen {
            Ok(at) => is_choice(configs@, at as int),
            Err(error) => !has_usable(configs@) && error == CoreError::NoSuitableConfig,
        },
{
    let mut best: Option<usize> = None;
    let mut at: usize = 0;
    while at < configs.len()
        invariant
            at <= configs@.len(),
            match best {
                Some(found) => found < at && is_choice(configs@.take(at as int), found as int),
                None => !has_usable(configs@.take(at as int)),
            },
        decreases configs@.len() - at,
    {
        let config = configs[at];
        if config.srgb_capable {
            let better = match best {
                Some(found) => configs[found].num_samples <= config.num_samples,
                None => true,
            };
            if better {
                best = Some(at);
            }
        }
        at = at + 1;
    }
    assert(configs@.take(at as int) == configs@);
    match best {
        Some(found) => Ok(found),
        None => Err(CoreError::NoSuitableConfig),
    }
}

} // verus!
