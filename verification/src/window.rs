use crate::error::CoreError;
use vstd::prelude::*;

verus! {

/// One thing the platform shell has to do on behalf of the runtime.
///
/// Commands are performed in the order in which the runtime planned them, on
/// the thread that owns the event loop.
#[derive(Clone, Copy, Debug, PartialEq, Eq, Structural)]
pub enum Command {
    /// Switch vertical sync off for the process, before any graphics context
    /// exists.
    DisableVsync,
    /// Make the window's graphics context current on the calling thread.
    MakeCurrent { window: u64 },
    /// Clear the colour buffer of the window whose context is current.
    Clear { window: u64 },
    /// Present the window's back buffer.
    SwapBuffers { window: u64 },
    /// Resize the window's drawing surface.
    ResizeSurface { window: u64, width: u32, height: u32 },
    /// Ask the platform for a redraw event for the window.
    RequestRedraw { window: u64 },
    /// Release the window's context and surface and close the native window.
    DestroyWindow { window: u64 },
    /// Leave the event loop.
    Exit,
}

/// The commands that present a frame of `window`: the context is made
/// current, then the buffers are swapped.
pub open spec fn present_plan(window: u64) -> Seq<Command> {
    seq![Command::MakeCurrent { window }, Command::SwapBuffers { window }]
}

/// The commands of one redraw of `window`: the context is made current
/// immediately before the first draw call, the colour buffer is cleared, and
/// the frame is presented.
pub open spec fn draw_plan(window: u64) -> Seq<Command> {
    seq![
        Command::MakeCurrent { window },
        Command::Clear { window },
        Command::SwapBuffers { window },
    ]
}

/// The commands that follow a change of the window's size: the surface is
/// resized to match, and a redraw is requested.
pub open spec fn resize_plan(window: u64, width: u32, height: u32) -> Seq<Command> {
    seq![Command::ResizeSurface { window, width, height }, Command::RequestRedraw { window }]
}

/// The commands that release a window: its context and surface are dropped
/// and the native window is closed.
pub open spec fn destroy_plan(window: u64) -> Seq<Command> {
    seq![Command::DestroyWindow { window }]
}

/// Whether a surface of this size can exist: both sides are above zero.
pub open spec fn has_area(width: u32, height: u32) -> bool {
    width > 0 && height > 0
}

/// What a window record holds, as a mathematical value.
pub struct WindowView {
    pub id: u64,
    pub title: Seq<char>,
    pub width: u32,
    pub height: u32,
}

impl WindowView {
    /// A record is valid when its surface has an area.
    pub open spec fn wf(self) -> bool {
        has_area(self.width, self.height)
    }

    /// The record after its surface took a new size.
    pub open spec fn resized(self, width: u32, height: u32) -> WindowView {
        WindowView { id: self.id, title: self.title, width, height }
    }
}

/// The runtime's record of one live window: its platform-assigned identity,
/// its title and the size of its drawing surface.
///
/// The native window, the surface and the graphics context themselves stay
/// with the platform shell, filed under the same identity.
#[derive(Debug)]
pub struct GeoWindow {
    id: u64,
    title: String,
    width: u32,
    height: u32,
}

impl GeoWindow {
    pub closed spec fn view(&self) -> WindowView {
        WindowView { id: self.id, title: self.title@, width: self.width, height: self.height }
    }

    /// The invariant of the type: every record has a surface with an area.
    #[verifier::type_invariant]
    pub open spec fn valid(self) -> bool {
        self@.wf()
    }

    /// A record for the window `id` with a surface of `width` by `height`.
    ///
    /// A size without an area is refused with [`CoreError::ZeroSize`].
    pub fn new(id: u64, title: &str, width: u32, height: u32) -> (made: Result<Self, CoreError>)
        ensures
            match made {
                Ok(window) => has_area(width, height) && window@ == (WindowView {
                    id,
                    title: title@,
                    width,
                    height,
                }),
                Err(error) => !has_area(width, height) && error == CoreError::ZeroSize,
            },
    {
        if width == 0 || height == 0 {
            Err(CoreError::ZeroSize)
        } else {
            Ok(GeoWindow { id, title: title.to_owned(), width, height })
        }
    }

    /// The identity the platform gave the window.
    pub fn id(&self) -> (id: u64)
        ensures
            id == self@.id,
    {
        self.id
    }

    /// The window's title.
    pub fn title(&self) -> (title: &str)
        ensures
            title@ == self@.title,
    {
        self.title.as_str()
    }

    /// The width of the drawing surface.
    pub fn width(&self) -> (width: u32)
        ensures
            width == self@.width,
    {
        self.width
    }

    /// The height of the drawing surface.
    pub fn height(&self) -> (height: u32)
        ensures
            height == self@.height,
    {
        self.height
    }

    /// Takes a new size for the drawing surface and plans what follows from
    /// it: the surface is resized, and a redraw is requested.
    ///
    /// A size without an area is refused with [`CoreError::ZeroSize`], and the
    /// record stays as it was.
    pub fn resize(
        &mut self,
        width: u32,
        height: u32,
    ) -> (planned: Result<Vec<Command>, CoreError>)
        ensures
            match planned {
                Ok(plan) => {
                    &&& has_area(width, height)
                    &&& final(self)@ == old(self)@.resized(width, height)
                    &&& plan@ == resize_plan(old(self)@.id, width, height)
                },
                Err(error) => {
                    &&& !has_area(width, height)
                    &&& error == CoreError::ZeroSize
                    &&& final(self)@ == old(self)@
                },
            },
    {
        if width == 0 || height == 0 {
            return Err(CoreError::ZeroSize);
        }
        proof {
            use_type_invariant(&*self);
        }
        self.width = width;
        self.height = height;
        let mut plan: Vec<Command> = Vec::new();
        plan.push(Command::ResizeSurface { window: self.id, width, height });
        plan.push(Command::RequestRedraw { window: self.id });
        Ok(plan)
    }

    /// Plans the presentation of a frame: the window's context is made
    /// current, then its buffers are swapped.
    pub fn swap_buffers(&self) -> (plan: Vec<Command>)
        ensures
            plan@ == present_plan(self@.id),
    {
        let mut plan: Vec<Command> = Vec::new();
        plan.push(Command::MakeCurrent { window: self.id });
        plan.push(Command::SwapBuffers { window: self.id });
        plan
    }

    /// Plans one redraw of the window.
    pub fn draw(&self) -> (plan: Vec<Command>)
        ensures
            plan@ == draw_plan(self@.id),
    {
        let mut plan: Vec<Command> = Vec::new();
        plan.push(Command::MakeCurrent { window: self.id });
        plan.push(Command::Clear { window: self.id });
        plan.push(Command::SwapBuffers { window: self.id });
        plan
    }

    /// Ends the record and plans the release of everything that belongs to
    /// the window.
    pub fn destroy(self) -> (plan: Vec<Command>)
        ensures
            plan@ == destroy_plan(self@.id),
    {
        let mut plan: Vec<Command> = Vec::new();
        plan.push(Command::DestroyWindow { window: self.id });
        plan
    }
}

impl Command {
    /// The window whose graphics context has to be current when the command
    /// is performed, for the commands that are draw calls.
    pub open spec fn draws_on(self) -> Option<u64> {
        match self {
            Command::Clear { window } => Some(window),
            Command::SwapBuffers { window } => Some(window),
            _ => None,
        }
    }

    /// The window whose context is current once the command was performed,
    /// where that of `current` was current before.
    pub open spec fn leaves_current(self, current: Option<u64>) -> Option<u64> {
        match self {
            Command::MakeCurrent { window } => Some(window),
            Command::DestroyWindow { window } => if current == Some(window) {
                None
            } else {
                current
            },
            _ => current,
        }
    }
}

/// The window whose context is current once `commands` were performed in
/// order, where that of `current` was current before.
pub open spec fn current_after(current: Option<u64>, commands: Seq<Command>) -> Option<u64>
    decreases commands.len(),
{
    if commands.len() == 0 {
        current
    } else {
        commands.last().leaves_current(current_after(current, commands.drop_last()))
    }
}

/// Whether `commands`, performed in order from a state in which the context
/// of `current` is current, issue every draw call on a window whose context
/// is current at that moment.
pub open spec fn draws_on_current(current: Option<u64>, commands: Seq<Command>) -> bool
    decreases commands.len(),
{
    if commands.len() == 0 {
        true
    } else {
        &&& draws_on_current(current, commands.drop_last())
        &&& commands.last().draws_on() matches Some(window) ==> current_after(
            current,
            commands.drop_last(),
        ) == Some(window)
    }
}

/// Whether `commands` keep the discipline of the graphics context whatever
/// context is current when they begin.
pub open spec fn disciplined(commands: Seq<Command>) -> bool {
    forall|current: Option<u64>| #[trigger] draws_on_current(current, commands)
}

/// Performing two sequences of commands one after the other leaves current
/// what the second leaves current after the first.
pub proof fn lemma_current_after_both(
    current: Option<u64>,
    first: Seq<Command>,
    second: Seq<Command>,
)
    ensures
        current_after(current, first + second) == current_after(
            current_after(current, first),
            second,
        ),
    decreases second.len(),
{
    if second.len() == 0 {
        assert(first + second =~= first);
    } else {
        assert((first + second).drop_last() =~= first + second.drop_last());
        lemma_current_after_both(current, first, second.drop_last());
    }
}

/// Two sequences of commands that keep the discipline of the graphics
/// context keep it when one is performed after the other.
pub proof fn lemma_disciplined_both(first: Seq<Command>, second: Seq<Command>)
    requires
        disciplined(first),
        disciplined(second),
    ensures
        disciplined(first + second),
    decreases second.len(),
{
    assert forall|current: Option<u64>| #[trigger]
        draws_on_current(current, first + second) by {
        if second.len() == 0 {
            assert(first + second =~= first);
            assert(draws_on_current(current, first));
        } else {
            assert((first + second).drop_last() =~= first + second.drop_last());
            assert forall|start: Option<u64>| #[trigger]
                draws_on_current(start, second.drop_last()) by {
                assert(draws_on_current(start, second));
            }
            lemma_disciplined_both(first, second.drop_last());
            assert(draws_on_current(current, first + second.drop_last()));
            lemma_current_after_both(current, first, second.drop_last());
            assert(draws_on_current(current_after(current, first), second));
        }
    }
}

/// Every plan of a record keeps the discipline of the graphics context: it
/// makes the context of its window current before it draws.
pub proof fn lemma_plans_are_disciplined(window: u64, width: u32, height: u32)
    ensures
        disciplined(present_plan(window)),
        disciplined(draw_plan(window)),
        disciplined(resize_plan(window, width, height)),
        disciplined(destroy_plan(window)),
        disciplined(seq![Command::Exit]),
        disciplined(seq![Command::DisableVsync]),
        disciplined(Seq::<Command>::empty()),
{
    let make = seq![Command::MakeCurrent { window }];
    let clear = seq![Command::MakeCurrent { window }, Command::Clear { window }];
    assert(present_plan(window).drop_last() =~= make);
    assert(draw_plan(window).drop_last() =~= clear);
    assert(clear.drop_last() =~= make);
    assert(resize_plan(window, width, height).drop_last() =~= seq![
        Command::ResizeSurface { window, width, height },
    ]);
    assert forall|current: Option<u64>| #[trigger]
        draws_on_current(current, present_plan(window)) by {
        reveal_with_fuel(draws_on_current, 4);
        reveal_with_fuel(current_after, 4);
    }
    assert forall|current: Option<u64>| #[trigger]
        draws_on_current(current, draw_plan(window)) by {
        reveal_with_fuel(draws_on_current, 5);
        reveal_with_fuel(current_after, 5);
    }
    assert forall|current: Option<u64>| #[trigger]
        draws_on_current(current, resize_plan(window, width, height)) by {
        reveal_with_fuel(draws_on_current, 4);
    }
    assert forall|current: Option<u64>| #[trigger]
        draws_on_current(current, destroy_plan(window)) by {
        reveal_with_fuel(draws_on_current, 3);
    }
    assert forall|current: Option<u64>| #[trigger]
        draws_on_current(current, seq![Command::Exit]) by {
        reveal_with_fuel(draws_on_current, 3);
    }
    assert forall|current: Option<u64>| #[trigger]
        draws_on_current(current, seq![Command::DisableVsync]) by {
        reveal_with_fuel(draws_on_current, 3);
    }
}

} // verus!
