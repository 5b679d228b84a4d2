//! The decisions of the Servo demo: which page it opens, what window events mean
//! for the page, and how a frame gets onto the screen.

use vstd::prelude::*;
use vstd::string::*;

use crate::geometry::PhysicalSize;
use crate::text::join2;

verus! {

/// `std::path::PathBuf`, carried through unread.
#[verifier::external_type_specification]
#[verifier::external_body]
pub struct ExPathBuf(std::path::PathBuf);

/// The serialization of the absolute URL that [`url::Url::parse`] reads from a
/// text, or nothing where it reads none.
pub uninterp spec fn parsed_url(text: Seq<char>) -> Option<Seq<char>>;

/// [`url::Url::parse`] on `text`: the serialization of the URL, or nothing where
/// the parser reports an error. The contract says that the outcome is a function
/// of the text alone, and leaves the URL syntax itself to the parser.
#[verifier::external_body]
fn parse_url(text: &str) -> (r: Option<String>)
    ensures
        r is Some <==> parsed_url(text@) is Some,
        r matches Some(serialization) ==> parsed_url(text@) == Some(serialization@),
{
    url::Url::parse(text).ok().map(String::from)
}

/// [`url::Url::from_file_path`] on `path`: the serialization of a `file` URL, or
/// nothing where the path is not absolute. Which paths are, and how their parts
/// are written, depends on the platform; the contract says only that a URL that
/// comes out begins with the scheme of files.
#[verifier::external_body]
fn file_url(path: &std::path::PathBuf) -> (r: Option<String>)
    ensures
        r matches Some(serialization) ==> "file://"@.is_prefix_of(serialization@),
{
    url::Url::from_file_path(path).ok().map(String::from)
}

/// What an argument turned out to be.
#[derive(Debug)]
pub enum UrlArgument {
    /// A URL, with this serialization.
    Url(String),
    /// No URL; it may be the path of a file.
    MaybePath,
}

/// Whether `r` is what an argument turns out to be, if `direct` is the URL that
/// it spells by itself and `prefixed` the one with a scheme put in front.
pub open spec fn is_url_argument(
    direct: Option<Seq<char>>,
    prefixed: Option<Seq<char>>,
    r: UrlArgument,
) -> bool {
    match r {
        UrlArgument::Url(url) => if direct is Some {
            direct == Some(url@)
        } else {
            prefixed == Some(url@)
        },
        UrlArgument::MaybePath => direct is None && prefixed is None,
    }
}

/// What an argument turns out to be, given the URL that it spells by itself and
/// the one that it spells with a scheme put in front: the first of them counts.
pub fn choose_url(direct: Option<String>, prefixed: Option<String>) -> (r: UrlArgument)
    ensures
        direct matches Some(url) ==> r == UrlArgument::Url(url),
        direct is None ==> (prefixed matches Some(url) ==> r == UrlArgument::Url(url)),
        direct is None && prefixed is None ==> r is MaybePath,
{
    match direct {
        Some(url) => UrlArgument::Url(url),
        None => match prefixed {
            Some(url) => UrlArgument::Url(url),
            None => UrlArgument::MaybePath,
        },
    }
}

/// What a command-line argument is: a URL as it stands, or a URL once `https://`
/// is put in front, or else maybe the path of a file.
pub fn resolve_url_argument(argument: &str) -> (r: UrlArgument)
    ensures
        is_url_argument(parsed_url(argument@), parsed_url("https://"@ + argument@), r),
{
    let direct = parse_url(argument);
    if direct.is_some() {
        return choose_url(direct, None);
    }
    let prefixed = parse_url(join2("https://", argument).as_str());
    choose_url(direct, prefixed)
}

/// The URL of an argument that was taken for a path, given what became of the
/// path.
pub fn path_argument_url(argument: &str, url: Option<String>) -> (r: Result<String, String>)
    ensures
        match url {
            Some(found) => r == Ok::<String, String>(found),
            None => r matches Err(message) && message@
                == "argument was neither a URL nor a file path: "@ + argument@,
        },
{
    match url {
        Some(found) => Ok(found),
        None => Err(join2("argument was neither a URL nor a file path: ", argument)),
    }
}

/// The URL of an argument that was taken for a path; `absolute` is that path made
/// absolute.
pub fn resolve_path_argument(argument: &str, absolute: &std::path::PathBuf) -> (r: Result<
    String,
    String,
>)
    ensures
        match r {
            Ok(found) => "file://"@.is_prefix_of(found@),
            Err(message) => message@ == "argument was neither a URL nor a file path: "@ + argument@,
        },
{
    path_argument_url(argument, file_url(absolute))
}

/// The URL of the built-in page, given what became of its path.
pub fn fixture_page_url(shown_path: &str, url: Option<String>) -> (r: Result<String, String>)
    ensures
        match url {
            Some(found) => r == Ok::<String, String>(found),
            None => r matches Err(message) && message@
                == "failed to convert fixture path to file URL: "@ + shown_path@,
        },
{
    match url {
        Some(found) => Ok(found),
        None => Err(join2("failed to convert fixture path to file URL: ", shown_path)),
    }
}

/// The URL of the built-in page at `path`, which messages show as `shown_path`.
pub fn resolve_fixture(shown_path: &str, path: &std::path::PathBuf) -> (r: Result<String, String>)
    ensures
        match r {
            Ok(found) => "file://"@.is_prefix_of(found@),
            Err(message) => message@ == "failed to convert fixture path to file URL: "@
                + shown_path@,
        },
{
    fixture_page_url(shown_path, file_url(path))
}

/// The title of the window while it shows `url`.
pub fn window_title(url: &str) -> (r: String)
    ensures
        r@ == "demo-servo-winit \u{2014} "@ + url@,
{
    join2("demo-servo-winit \u{2014} ", url)
}

/// A position of two double-precision coordinates, held as their IEEE 754 bit
/// patterns.
#[derive(Clone, Copy, Debug, PartialEq, Eq, Structural)]
pub struct CursorPosition {
    pub x_bits: u64,
    pub y_bits: u64,
}

/// A mouse button as the window system names it.
#[derive(Clone, Copy, Debug, PartialEq, Eq, Structural)]
pub enum HostButton {
    Left,
    Right,
    Middle,
    /// Any other button.
    Other,
}

/// A mouse button that the page hears of.
#[derive(Clone, Copy, Debug, PartialEq, Eq, Structural)]
pub enum PageButton {
    Left,
    Right,
    Middle,
}

/// What has happened to a mouse button.
#[derive(Clone, Copy, Debug, PartialEq, Eq, Structural)]
pub enum ButtonAction {
    Down,
    Up,
}

/// The unit in which a wheel counts.
#[derive(Clone, Copy, Debug, PartialEq, Eq, Structural)]
pub enum WheelMode {
    Line,
    Pixel,
}

/// How many pixels a line of wheel movement scrolls.
pub const PIXELS_PER_LINE: u32 = 38;

/// An event of the demo's window.
#[derive(Clone, Copy, Debug, PartialEq, Eq, Structural)]
pub enum HostEvent {
    CloseRequested,
    RedrawRequested,
    Resized(PhysicalSize),
    /// The scale factor, as the bit pattern of a double.
    ScaleFactorChanged { scale_bits: u64 },
    ModifiersChanged { modifiers: u32 },
    CursorMoved(CursorPosition),
    CursorLeft,
    MouseInput { pressed: bool, button: HostButton },
    /// The wheel has turned, in the given unit.
    MouseWheel(WheelMode),
    KeyboardInput,
    /// Any other event.
    Other,
}

/// What the demo does about an event.
#[derive(Clone, Copy, Debug, PartialEq, Eq, Structural)]
pub enum DemoAction {
    /// Leave the event loop.
    Exit,
    /// Render a frame, and leave the event loop if that fails.
    Render,
    ResizeRenderer(PhysicalSize),
    ResizeViewport(PhysicalSize),
    ResizePage(PhysicalSize),
    SetScaleFactor { scale_bits: u64 },
    RequestRedraw,
    MoveMouse(CursorPosition),
    LeaveViewport,
    PressButton { action: ButtonAction, button: PageButton, at: CursorPosition },
    /// Scroll by the wheel's movement, each unit of it worth so many.
    Scroll { mode: WheelMode, factor: u32, at: CursorPosition },
    SendKey { modifiers: u32 },
}

/// What the demo remembers of past events.
#[derive(Clone, Copy, Debug, PartialEq, Eq, Structural)]
pub struct InputState {
    pub cursor: CursorPosition,
    pub modifiers: u32,
    pub scale_bits: u64,
}

/// The button of the page that a button of the window stands for.
pub open spec fn page_button(button: HostButton) -> Option<PageButton> {
    match button {
        HostButton::Left => Some(PageButton::Left),
        HostButton::Right => Some(PageButton::Right),
        HostButton::Middle => Some(PageButton::Middle),
        HostButton::Other => None,
    }
}

impl InputState {
    /// What is remembered after an event.
    pub open spec fn after(self, event: HostEvent) -> InputState {
        match event {
            HostEvent::ScaleFactorChanged { scale_bits } => InputState { scale_bits, ..self },
            HostEvent::ModifiersChanged { modifiers } => InputState { modifiers, ..self },
            HostEvent::CursorMoved(cursor) => InputState { cursor, ..self },
            _ => self,
        }
    }

    /// What the demo does about an event. Buttons and the wheel act where the
    /// cursor was last seen.
    pub open spec fn actions(self, event: HostEvent) -> Seq<DemoAction> {
        match event {
            HostEvent::CloseRequested => seq![DemoAction::Exit],
            HostEvent::RedrawRequested => seq![DemoAction::Render],
            HostEvent::Resized(size) => seq![
                DemoAction::ResizeRenderer(size),
                DemoAction::ResizeViewport(size),
                DemoAction::ResizePage(size),
                DemoAction::RequestRedraw,
            ],
            HostEvent::ScaleFactorChanged { scale_bits } => seq![
                DemoAction::SetScaleFactor { scale_bits },
                DemoAction::RequestRedraw,
            ],
            HostEvent::CursorMoved(cursor) => seq![DemoAction::MoveMouse(cursor)],
            HostEvent::CursorLeft => seq![DemoAction::LeaveViewport],
            HostEvent::MouseInput { pressed, button } => match page_button(button) {
                Some(button) => seq![
                    DemoAction::PressButton {
                        action: if pressed {
                            ButtonAction::Down
                        } else {
                            ButtonAction::Up
                        },
                        button,
                        at: self.cursor,
                    },
                ],
                None => Seq::empty(),
            },
            HostEvent::MouseWheel(mode) => seq![
                DemoAction::Scroll {
                    mode,
                    factor: if mode is Line {
                        PIXELS_PER_LINE
                    } else {
                        1
                    },
                    at: self.cursor,
                },
            ],
            HostEvent::KeyboardInput => seq![DemoAction::SendKey { modifiers: self.modifiers }],
            _ => Seq::empty(),
        }
    }

    /// Takes an event in. Returns what the demo does about it, in order.
    pub fn window_event(&mut self, event: HostEvent) -> (r: Vec<DemoAction>)
        ensures
            *final(self) == old(self).after(event),
            r@ == old(self).actions(event),
    {
        let mut actions: Vec<DemoAction> = Vec::new();
        match event {
            HostEvent::CloseRequested => actions.push(DemoAction::Exit),
            HostEvent::RedrawRequested => actions.push(DemoAction::Render),
            HostEvent::Resized(size) => {
                actions.push(DemoAction::ResizeRenderer(size));
                actions.push(DemoAction::ResizeViewport(size));
                actions.push(DemoAction::ResizePage(size));
                actions.push(DemoAction::RequestRedraw);
            },
            HostEvent::ScaleFactorChanged { scale_bits } => {
                self.scale_bits = scale_bits;
                actions.push(DemoAction::SetScaleFactor { scale_bits });
                actions.push(DemoAction::RequestRedraw);
            },
            HostEvent::ModifiersChanged { modifiers } => {
                self.modifiers = modifiers;
            },
            HostEvent::CursorMoved(cursor) => {
                self.cursor = cursor;
                actions.push(DemoAction::MoveMouse(cursor));
            },
            HostEvent::CursorLeft => actions.push(DemoAction::LeaveViewport),
            HostEvent::MouseInput { pressed, button } => {
                let page = match button {
                    HostButton::Left => Some(PageButton::Left),
                    HostButton::Right => Some(PageButton::Right),
                    HostButton::Middle => Some(PageButton::Middle),
                    HostButton::Other => None,
                };
                if let Some(button) = page {
                    let action = if pressed {
                        ButtonAction::Down
                    } else {
                        ButtonAction::Up
                    };
                    actions.push(DemoAction::PressButton { action, button, at: self.cursor });
                }
            },
            HostEvent::MouseWheel(mode) => {
                let factor: u32 = if matches!(mode, WheelMode::Line) {
                    PIXELS_PER_LINE
                } else {
                    1
                };
                actions.push(DemoAction::Scroll { mode, factor, at: self.cursor });
            },
            HostEvent::KeyboardInput => {
                actions.push(DemoAction::SendKey { modifiers: self.modifiers });
            },
            HostEvent::Other => {},
        }
        assert(actions@ =~= old(self).actions(event));
        actions
    }
}

impl InputState {
    /// What is remembered after a run of events.
    pub open spec fn after_all(self, events: Seq<HostEvent>) -> InputState
        decreases events.len(),
    {
        if events.len() == 0 {
            self
        } else {
            self.after_all(events.drop_last()).after(events.last())
        }
    }
}

proof fn cursor_stays(state: InputState, events: Seq<HostEvent>)
    requires
        forall|i: int| 0 <= i < events.len() ==> !(#[trigger] events[i] is CursorMoved),
    ensures
        state.after_all(events).cursor == state.cursor,
    decreases events.len(),
{
    if events.len() > 0 {
        cursor_stays(state, events.drop_last());
    }
}

/// A click lands where the cursor was moved to last: after the cursor has moved
/// to a point, and any events that do not move it again, a press of a button that
/// the page hears of is sent for that point.
pub proof fn clicks_land_under_the_cursor(
    state: InputState,
    to: CursorPosition,
    between: Seq<HostEvent>,
    pressed: bool,
    button: HostButton,
)
    requires
        forall|i: int| 0 <= i < between.len() ==> !(#[trigger] between[i] is CursorMoved),
        !(button is Other),
    ensures
        state.after(HostEvent::CursorMoved(to)).after_all(between).actions(
            HostEvent::MouseInput { pressed, button },
        ) == seq![
            DemoAction::PressButton {
                action: if pressed {
                    ButtonAction::Down
                } else {
                    ButtonAction::Up
                },
                button: page_button(button)->0,
                at: to,
            },
        ],
{
    cursor_stays(state.after(HostEvent::CursorMoved(to)), between);
}

/// What a [`FrameRender`] asks of its caller.
#[derive(Clone, Copy, Debug, PartialEq, Eq, Structural)]
pub enum FrameStep {
    /// Let the page paint.
    Paint,
    /// Import the painted frame into the host device.
    ImportFrame,
    /// Show the imported texture.
    RenderImported,
    /// Read the painted frame back and upload it, if it can be read.
    ReadAndUpload,
    /// Show what was uploaded last.
    RenderCached,
    /// Nothing is left to do.
    Finish,
}

/// Renders frames: by import as long as that has not failed once, and by way of
/// the CPU from then on.
#[derive(Clone, Copy, Debug, PartialEq, Eq, Structural)]
pub struct FrameRender {
    pub gpu_import_failed: bool,
    pub step: FrameStep,
}

impl FrameRender {
    /// A renderer that has not rendered anything yet.
    pub fn new() -> (r: Self)
        ensures
            !r.gpu_import_failed,
            r.step is Finish,
    {
        FrameRender { gpu_import_failed: false, step: FrameStep::Finish }
    }

    /// Begins to render a frame.
    pub fn render_frame(&mut self)
        ensures
            final(self).gpu_import_failed == old(self).gpu_import_failed,
            final(self).step is Paint,
    {
        self.step = FrameStep::Paint;
    }

    /// Reports whether the import of the frame succeeded. One failure is enough
    /// for every later frame to take the way over the CPU.
    pub fn frame_imported(&mut self, succeeded: bool)
        requires
            old(self).step is ImportFrame,
        ensures
            final(self).gpu_import_failed == (old(self).gpu_import_failed || !succeeded),
            final(self).step == (if succeeded {
                FrameStep::RenderImported
            } else {
                FrameStep::ReadAndUpload
            }),
    {
        if succeeded {
            self.step = FrameStep::RenderImported;
        } else {
            self.gpu_import_failed = true;
            self.step = FrameStep::ReadAndUpload;
        }
    }

    /// Reports that the step that was due has been taken, where it is neither an
    /// import nor the last.
    pub fn taken(&mut self)
        requires
            old(self).step is Paint || old(self).step is ReadAndUpload,
        ensures
            final(self).gpu_import_failed == old(self).gpu_import_failed,
            final(self).step == (if old(self).step is ReadAndUpload {
                FrameStep::RenderCached
            } else if old(self).gpu_import_failed {
                FrameStep::ReadAndUpload
            } else {
                FrameStep::ImportFrame
            }),
    {
        self.step = match self.step {
            FrameStep::ReadAndUpload => FrameStep::RenderCached,
            _ => if self.gpu_import_failed {
                FrameStep::ReadAndUpload
            } else {
                FrameStep::ImportFrame
            },
        };
    }

    /// Reports what came of showing the frame, which ends its rendering. The cause
    /// of a failure is what the surface reported.
    pub fn shown(&mut self, outcome: Result<(), String>) -> (r: Result<(), String>)
        requires
            old(self).step is RenderImported || old(self).step is RenderCached,
        ensures
            final(self).gpu_import_failed == old(self).gpu_import_failed,
            final(self).step is Finish,
            match outcome {
                Ok(()) => r is Ok,
                Err(cause) => r matches Err(message) && message@ == "surface render error: "@
                    + cause@,
            },
    {
        self.step = FrameStep::Finish;
        match outcome {
            Ok(()) => Ok(()),
            Err(cause) => Err(join2("surface render error: ", cause.as_str())),
        }
    }
}

/// Buttons keep their names on the way to the page: a press or release of the left,
/// right or middle button is sent as one of that same button, at the cursor, and as
/// nothing else. No other button is sent.
pub proof fn buttons_keep_their_names(
    state: &mut InputState,
    pressed: bool,
    button: HostButton,
    actions: Vec<DemoAction>,
)
    requires
        call_ensures(
            InputState::window_event,
            (state, HostEvent::MouseInput { pressed, button }),
            actions,
        ),
    ensures
        button == HostButton::Other <==> actions@.len() == 0,
        button != HostButton::Other ==> {
            &&& actions@.len() == 1
            &&& actions@[0] matches DemoAction::PressButton { action, button: sent, at } && {
                &&& at == old(state).cursor
                &&& action == ButtonAction::Down <==> pressed
                &&& action == ButtonAction::Up <==> !pressed
                &&& sent == PageButton::Left <==> button == HostButton::Left
                &&& sent == PageButton::Right <==> button == HostButton::Right
                &&& sent == PageButton::Middle <==> button == HostButton::Middle
            }
        },
        *final(state) == *old(state),
{
}

/// A resize of the window reaches all that has a size: the renderer, the viewport and
/// the page are given the same new size, in this order, before the window is drawn
/// again. Nothing is given another size by any other event.
pub proof fn resize_reaches_everything(
    state: &mut InputState,
    event: HostEvent,
    actions: Vec<DemoAction>,
    i: int,
)
    requires
        call_ensures(InputState::window_event, (state, event), actions),
        0 <= i < actions@.len(),
    ensures
        event matches HostEvent::Resized(size) ==> {
            &&& actions@.len() == 4
            &&& actions@[0] == DemoAction::ResizeRenderer(size)
            &&& actions@[1] == DemoAction::ResizeViewport(size)
            &&& actions@[2] == DemoAction::ResizePage(size)
            &&& actions@[3] == DemoAction::RequestRedraw
            &&& *final(state) == *old(state)
        },
        actions@[i] is ResizeRenderer || actions@[i] is ResizeViewport || actions@[i] is ResizePage
            ==> event is Resized,
{
}

/// The demo ends when its window is closed and renders when it is to be drawn, and at
/// no other event; it asks to be drawn after a change of size or scale alone.
pub proof fn demo_ends_and_renders_on_request(
    state: &mut InputState,
    event: HostEvent,
    actions: Vec<DemoAction>,
)
    requires
        call_ensures(InputState::window_event, (state, event), actions),
    ensures
        actions@.contains(DemoAction::Exit) <==> event is CloseRequested,
        actions@.contains(DemoAction::Render) <==> event is RedrawRequested,
        actions@.contains(DemoAction::RequestRedraw) <==> event is Resized
            || event is ScaleFactorChanged,
        actions@.contains(DemoAction::LeaveViewport) <==> event is CursorLeft,
        event is Other || event is ModifiersChanged ==> actions@.len() == 0,
{
    let acts = actions@;
    if event is CloseRequested {
        assert(acts[0] == DemoAction::Exit);
    }
    if event is RedrawRequested {
        assert(acts[0] == DemoAction::Render);
    }
    if event is CursorLeft {
        assert(acts[0] == DemoAction::LeaveViewport);
    }
    if event is Resized {
        assert(acts[3] == DemoAction::RequestRedraw);
    }
    if event is ScaleFactorChanged {
        assert(acts[1] == DemoAction::RequestRedraw);
    }
}

/// What the window says of the cursor, the scale and the keys is passed on and
/// remembered as it is, each without touching the others.
pub proof fn window_state_is_passed_on(
    state: &mut InputState,
    event: HostEvent,
    actions: Vec<DemoAction>,
)
    requires
        call_ensures(InputState::window_event, (state, event), actions),
    ensures
        event matches HostEvent::CursorMoved(to) ==> actions@ == seq![DemoAction::MoveMouse(to)]
            && final(state).cursor == to,
        !(event is CursorMoved) ==> final(state).cursor == old(state).cursor,
        event matches HostEvent::ScaleFactorChanged { scale_bits } ==> actions@ == seq![
            DemoAction::SetScaleFactor { scale_bits },
            DemoAction::RequestRedraw,
        ] && final(state).scale_bits == scale_bits,
        !(event is ScaleFactorChanged) ==> final(state).scale_bits == old(state).scale_bits,
        event matches HostEvent::ModifiersChanged { modifiers } ==> final(state).modifiers
            == modifiers,
        !(event is ModifiersChanged) ==> final(state).modifiers == old(state).modifiers,
        event is KeyboardInput ==> actions@ == seq![
            DemoAction::SendKey { modifiers: old(state).modifiers },
        ],
{
}

/// The page is scrolled by the wheel, at the cursor, in the wheel's own unit: a line is
/// worth 38, a pixel one.
pub proof fn wheel_scrolls_under_the_cursor(
    state: &mut InputState,
    mode: WheelMode,
    actions: Vec<DemoAction>,
)
    requires
        call_ensures(InputState::window_event, (state, HostEvent::MouseWheel(mode)), actions),
    ensures
        actions@.len() == 1,
        actions@[0] matches DemoAction::Scroll { mode: sent, factor, at } && {
            &&& sent == mode
            &&& at == old(state).cursor
            &&& mode == WheelMode::Line ==> factor == 38
            &&& mode == WheelMode::Pixel ==> factor == 1
        },
        *final(state) == *old(state),
{
}

proof fn modifiers_stay(state: InputState, events: Seq<HostEvent>)
    requires
        forall|i: int| 0 <= i < events.len() ==> !(#[trigger] events[i] is ModifiersChanged),
    ensures
        state.after_all(events).modifiers == state.modifiers,
    decreases events.len(),
{
    if events.len() > 0 {
        modifiers_stay(state, events.drop_last());
    }
}

/// A key is sent with the modifiers that were set last: after they have been set, and
/// any events that do not set them again, a key carries just these.
pub proof fn keys_carry_the_modifiers(state: InputState, set: u32, between: Seq<HostEvent>)
    requires
        forall|i: int| 0 <= i < between.len() ==> !(#[trigger] between[i] is ModifiersChanged),
    ensures
        state.after(HostEvent::ModifiersChanged { modifiers: set }).after_all(between).actions(
            HostEvent::KeyboardInput,
        ) == seq![DemoAction::SendKey { modifiers: set }],
{
    modifiers_stay(state.after(HostEvent::ModifiersChanged { modifiers: set }), between);
}

/// An argument that is a URL is opened as that URL, though it would be one with a
/// scheme in front as well; one that becomes a URL with `https://` in front is opened
/// as that; and only what is neither is taken for a path.
pub proof fn argument_is_a_url_first(argument: &str, r: UrlArgument)
    requires
        call_ensures(resolve_url_argument, (argument,), r),
    ensures
        parsed_url(argument@) matches Some(direct) ==> (r matches UrlArgument::Url(url) && url@
            == direct),
        parsed_url(argument@) is None ==> match parsed_url("https://"@ + argument@) {
            Some(prefixed) => r matches UrlArgument::Url(url) && url@ == prefixed,
            None => r is MaybePath,
        },
{
}

/// Of the two URLs that an argument may spell, the one without a scheme put in front
/// counts, and neither is changed.
pub proof fn direct_url_counts(direct: Option<String>, prefixed: Option<String>, r: UrlArgument)
    requires
        call_ensures(choose_url, (direct, prefixed), r),
    ensures
        direct matches Some(url) ==> r == UrlArgument::Url(url),
        direct is None && prefixed is Some ==> r == UrlArgument::Url(prefixed->0),
        r is MaybePath <==> direct is None && prefixed is None,
{
}

/// A path opens as the URL that it was turned into, and an argument that gave none is
/// named in the error.
pub proof fn path_opens_as_its_url(
    argument: &str,
    url: Option<String>,
    of_argument: Result<String, String>,
    of_fixture: Result<String, String>,
)
    requires
        call_ensures(path_argument_url, (argument, url), of_argument),
        call_ensures(fixture_page_url, (argument, url), of_fixture),
    ensures
        url matches Some(found) ==> of_argument == Ok::<String, String>(found) && of_fixture
            == Ok::<String, String>(found),
        url is None ==> of_argument is Err && of_fixture is Err,
        of_argument matches Err(message) ==> message@.len() >= argument@.len() && message@.skip(
            message@.len() - argument@.len(),
        ) == argument@,
        of_fixture matches Err(message) ==> message@.len() >= argument@.len() && message@.skip(
            message@.len() - argument@.len(),
        ) == argument@,
{
}

/// The title of the window ends in the URL that it shows.
pub proof fn title_shows_the_url(url: &str, title: String)
    requires
        call_ensures(window_title, (url,), title),
    ensures
        title@.len() > url@.len(),
        title@.skip(title@.len() - url@.len()) == url@,
        "demo-servo-winit"@.is_prefix_of(title@),
{
    reveal_strlit("demo-servo-winit \u{2014} ");
    reveal_strlit("demo-servo-winit");
}

/// A frame is imported as long as no import has failed, and read back from the first
/// failure on, that frame included. Either way it is painted first and shown last.
pub proof fn failed_import_falls_back_for_good(
    painting: &mut FrameRender,
    importing: &mut FrameRender,
    succeeded: bool,
    reading: &mut FrameRender,
)
    requires
        painting.step is Paint,
        call_ensures(FrameRender::taken, (painting,), ()),
        importing.step is ImportFrame,
        call_ensures(FrameRender::frame_imported, (importing, succeeded), ()),
        reading.step is ReadAndUpload,
        call_ensures(FrameRender::taken, (reading,), ()),
    ensures
        final(painting).step == FrameStep::ImportFrame <==> !old(painting).gpu_import_failed,
        final(painting).step == FrameStep::ReadAndUpload <==> old(painting).gpu_import_failed,
        final(painting).gpu_import_failed == old(painting).gpu_import_failed,
        final(importing).step == FrameStep::RenderImported <==> succeeded,
        final(importing).step == FrameStep::ReadAndUpload <==> !succeeded,
        !succeeded ==> final(importing).gpu_import_failed,
        succeeded ==> final(importing).gpu_import_failed == old(importing).gpu_import_failed,
        final(reading).step == FrameStep::RenderCached,
        final(reading).gpu_import_failed == old(reading).gpu_import_failed,
{
}

/// A frame begins with its painting and ends when it is shown; a surface that could not
/// show it is reported with its cause.
pub proof fn frame_is_painted_and_shown(
    fresh: FrameRender,
    beginning: &mut FrameRender,
    showing: &mut FrameRender,
    outcome: Result<(), String>,
    r: Result<(), String>,
)
    requires
        call_ensures(FrameRender::new, (), fresh),
        call_ensures(FrameRender::render_frame, (beginning,), ()),
        showing.step is RenderImported || showing.step is RenderCached,
        call_ensures(FrameRender::shown, (showing, outcome), r),
    ensures
        !fresh.gpu_import_failed,
        final(beginning).step is Paint,
        final(beginning).gpu_import_failed == old(beginning).gpu_import_failed,
        final(showing).step is Finish,
        final(showing).gpu_import_failed == old(showing).gpu_import_failed,
        outcome is Ok <==> r is Ok,
        r matches Err(message) ==> message@.len() > outcome->Err_0@.len() && message@.skip(
            message@.len() - outcome->Err_0@.len(),
        ) == outcome->Err_0@,
{
    reveal_strlit("surface render error: ");
}

} // verus!
