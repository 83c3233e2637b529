//! The engine header: the title bar with its settings, minimize, maximize and
//! close buttons, the settings dropdown with the frame-limit selector, and
//! the bookkeeping of its render cache.
use vstd::prelude::*;
use crate::primitives::UiAction;
use crate::ui_zone::{UiZone, RuntimeZone};
use crate::names::same_text;

verus! {

/// A frame-rate limit: either synchronised to the monitor or a manual value.
#[derive(Clone, Copy, PartialEq, Eq, Debug, Structural)]
pub struct FpsLimit {
    pub value: u32,
    pub is_auto: bool,
}

/// The text that the settings menu shows for a frame-rate limit.
pub open spec fn fps_label(f: FpsLimit) -> Seq<char> {
    if f.is_auto {
        "Auto (Sync)"@
    } else if f.value == 30 {
        "30 FPS"@
    } else if f.value == 60 {
        "60 FPS"@
    } else if f.value == 144 {
        "144 FPS"@
    } else if f.value == 240 {
        "240 FPS"@
    } else {
        "?? FPS"@
    }
}

impl FpsLimit {
    /// The label shown for this limit in the frame-limit selector.
    pub fn label(&self) -> (s: &'static str)
        ensures
            s@ == fps_label(*self),
    {
        if self.is_auto {
            "Auto (Sync)"
        } else {
            match self.value {
                30 => "30 FPS",
                60 => "60 FPS",
                144 => "144 FPS",
                240 => "240 FPS",
                _ => "?? FPS",
            }
        }
    }
}

impl FpsLimit {
    /// The limit after the window moved to a monitor of `monitor_hz`: an
    /// automatic limit follows the monitor; a manual one is capped to it.
    pub open spec fn synced_to_monitor_spec(self, monitor_hz: u32) -> FpsLimit {
        if self.is_auto {
            FpsLimit { value: monitor_hz, is_auto: true }
        } else if monitor_hz < self.value {
            FpsLimit { value: monitor_hz, is_auto: false }
        } else {
            self
        }
    }

    /// The limit after the window moved to a monitor of `monitor_hz`.
    pub fn synced_to_monitor(self, monitor_hz: u32) -> (r: FpsLimit)
        ensures
            r == self.synced_to_monitor_spec(monitor_hz),
    {
        if self.is_auto {
            FpsLimit { value: monitor_hz, is_auto: true }
        } else if monitor_hz < self.value {
            FpsLimit { value: monitor_hz, is_auto: false }
        } else {
            self
        }
    }
}

/// Whether the settings button asks for the user's attention.
#[derive(Clone, Copy, PartialEq, Eq, Debug, Structural)]
pub enum SettingsAttention {
    NotNeeded,
    Needed,
    Required,
}

/// The actions of the engine header.
#[derive(Clone, Copy, PartialEq, Eq, Debug, Structural)]
pub enum EngineHeaderAction {
    CloseWindow,
    Drag,
    MaximizeWindow,
    MinimizeWindow,
    NoAction,
    SetFps144,
    SetFps240,
    SetFps30,
    SetFps60,
    SetFpsAuto,
    ToggleFpsMenu,
    ToggleSettings,
}

impl UiAction for EngineHeaderAction {
    open spec fn spec_is_interactive(&self) -> bool {
        !(*self == EngineHeaderAction::NoAction || *self == EngineHeaderAction::Drag)
    }

    fn is_interactive(&self) -> (r: bool) {
        !matches!(self, EngineHeaderAction::NoAction | EngineHeaderAction::Drag)
    }

    fn same_action(&self, other: &Self) -> (r: bool) {
        *self == *other
    }
}

/// What the window has to do after a header action.
#[derive(Clone, Copy, PartialEq, Eq, Debug, Structural)]
pub enum WindowCommand {
    Stay,
    Minimize,
    /// Maximize the window if it is not maximized, restore it otherwise.
    ToggleMaximize,
    /// Let the user drag the window.
    StartDrag,
}

/// The outcome of a header action.
#[derive(Clone, Copy, PartialEq, Eq, Debug, Structural)]
pub struct HeaderReply {
    /// The header's state or the window changed, so the header must be redrawn.
    pub changed: bool,
    pub command: WindowCommand,
}

/// The window command that an action asks for.
pub open spec fn command_of(action: EngineHeaderAction) -> WindowCommand {
    match action {
        EngineHeaderAction::MinimizeWindow => WindowCommand::Minimize,
        EngineHeaderAction::MaximizeWindow => WindowCommand::ToggleMaximize,
        EngineHeaderAction::Drag => WindowCommand::StartDrag,
        _ => WindowCommand::Stay,
    }
}

/// The menu state after an action: whether the settings dropdown and the
/// frame-limit selector are open, and the frame limit.
pub open spec fn menus_after(settings_open: bool, fps_open: bool, fps: FpsLimit, action: EngineHeaderAction) -> (
    bool,
    bool,
    FpsLimit,
) {
    match action {
        EngineHeaderAction::ToggleSettings => (
            !settings_open,
            if settings_open { false } else { fps_open },
            fps,
        ),
        EngineHeaderAction::ToggleFpsMenu => (settings_open, !fps_open, fps),
        EngineHeaderAction::SetFpsAuto => (settings_open, false, FpsLimit { value: fps.value, is_auto: true }),
        EngineHeaderAction::SetFps30 => (settings_open, false, FpsLimit { value: 30, is_auto: false }),
        EngineHeaderAction::SetFps60 => (settings_open, false, FpsLimit { value: 60, is_auto: false }),
        EngineHeaderAction::SetFps144 => (settings_open, false, FpsLimit { value: 144, is_auto: false }),
        EngineHeaderAction::SetFps240 => (settings_open, false, FpsLimit { value: 240, is_auto: false }),
        _ => (settings_open, fps_open, fps),
    }
}

/// The selectors of a component that are open: at most one at a time.
pub struct SelectorState {
    pub open: Option<&'static str>,
}

impl View for SelectorState {
    type V = Set<Seq<char>>;

    open spec fn view(&self) -> Set<Seq<char>> {
        match self.open {
            Some(id) => set![id@],
            None => Set::empty(),
        }
    }
}

impl SelectorState {
    /// No selector is open.
    pub fn new() -> (r: SelectorState)
        ensures
            r@ == Set::<Seq<char>>::empty(),
    {
        SelectorState { open: None }
    }

    /// Whether the selector `id` is open.
    pub fn selector_open(&self, id: &'static str) -> (r: bool)
        ensures
            r == self@.contains(id@),
    {
        match self.open {
            Some(o) => same_text(o, id),
            None => false,
        }
    }

    /// Closes the selector `id` if it is open; otherwise closes every other
    /// selector and opens it.
    pub fn toggle_selector(&mut self, id: &'static str)
        ensures
            old(self)@.contains(id@) ==> final(self)@ == old(self)@.remove(id@),
            !old(self)@.contains(id@) ==> final(self)@ == Set::<Seq<char>>::empty().insert(id@),
    {
        if self.selector_open(id) {
            self.open = None;
            assert(self@ =~= old(self)@.remove(id@));
        } else {
            self.open = Some(id);
            assert(self@ =~= Set::<Seq<char>>::empty().insert(id@));
        }
    }

    /// Closes the selector `id`.
    pub fn close_selector(&mut self, id: &'static str)
        ensures
            final(self)@ == old(self)@.remove(id@),
    {
        if self.selector_open(id) {
            self.open = None;
        }
        assert(self@ =~= old(self)@.remove(id@));
    }

    /// At most one selector is open.
    pub proof fn lemma_at_most_one_open(&self)
        ensures
            self@.finite(),
            self@.len() <= 1,
    {
        match self.open {
            Some(id) => {
                assert(self@ =~= Set::<Seq<char>>::empty().insert(id@));
            },
            None => {},
        }
    }
}

/// The plain state of the engine header.
pub struct EngineHeader {
    pub title: String,
    pub settings_dropdown_open: bool,
    pub fps_selector_open: bool,
    pub settings_attention: SettingsAttention,
    pub current_fps: FpsLimit,
    pub open_selectors: SelectorState,
    pub cache_valid: bool,
    pub cached_window_width: u32,
    pub cached_is_maximized: bool,
}

impl EngineHeader {
    /// Whether the rendered primitives are valid.
    pub open spec fn spec_cache_valid(&self) -> bool {
        self.cache_valid
    }

    /// The window width the rendered primitives were made for.
    pub open spec fn spec_cached_width(&self) -> u32 {
        self.cached_window_width
    }

    /// Whether the rendered primitives were made for a maximized window.
    pub open spec fn spec_cached_maximized(&self) -> bool {
        self.cached_is_maximized
    }

    /// The two headers agree on every field but the open selectors.
    pub open spec fn same_but_selectors(&self, other: &EngineHeader) -> bool {
        &&& self.title == other.title
        &&& self.settings_dropdown_open == other.settings_dropdown_open
        &&& self.fps_selector_open == other.fps_selector_open
        &&& self.settings_attention == other.settings_attention
        &&& self.current_fps == other.current_fps
        &&& self.cache_valid == other.cache_valid
        &&& self.cached_window_width == other.cached_window_width
        &&& self.cached_is_maximized == other.cached_is_maximized
    }

    /// A header with the given title: menus closed, no attention needed, an
    /// automatic 144 FPS limit and nothing rendered yet.
    pub fn new(title: String) -> (h: EngineHeader)
        ensures
            h.title == title,
            !h.settings_dropdown_open,
            !h.fps_selector_open,
            h.settings_attention == SettingsAttention::NotNeeded,
            h.current_fps == (FpsLimit { value: 144, is_auto: true }),
            h.open_selectors@ == Set::<Seq<char>>::empty(),
            !h.spec_cache_valid(),
            h.spec_cached_width() == 0,
            !h.spec_cached_maximized(),
    {
        EngineHeader {
            title,
            settings_dropdown_open: false,
            fps_selector_open: false,
            settings_attention: SettingsAttention::NotNeeded,
            current_fps: FpsLimit { value: 144, is_auto: true },
            open_selectors: SelectorState::new(),
            cache_valid: false,
            cached_window_width: 0,
            cached_is_maximized: false,
        }
    }

    /// Marks the rendered primitives as stale.
    pub fn invalidate_cache(&mut self)
        ensures
            !final(self).spec_cache_valid(),
            final(self).spec_cached_width() == old(self).spec_cached_width(),
            final(self).spec_cached_maximized() == old(self).spec_cached_maximized(),
            final(self).title == old(self).title,
            final(self).settings_dropdown_open == old(self).settings_dropdown_open,
            final(self).fps_selector_open == old(self).fps_selector_open,
            final(self).settings_attention == old(self).settings_attention,
            final(self).current_fps == old(self).current_fps,
            final(self).open_selectors == old(self).open_selectors,
    {
        self.cache_valid = false;
    }

    /// Whether the primitives must be rendered again for a window of this
    /// width and maximized state; records that they will be.
    pub fn ensure_cache(&mut self, window_width: u32, is_maximized: bool) -> (render: bool)
        ensures
            render == (!old(self).spec_cache_valid() || old(self).spec_cached_width() != window_width
                || old(self).spec_cached_maximized() != is_maximized),
            render ==> final(self).spec_cache_valid() && final(self).spec_cached_width()
                == window_width && final(self).spec_cached_maximized() == is_maximized,
            !render ==> final(self).spec_cache_valid() == old(self).spec_cache_valid()
                && final(self).spec_cached_width() == old(self).spec_cached_width()
                && final(self).spec_cached_maximized() == old(self).spec_cached_maximized(),
            final(self).title == old(self).title,
            final(self).settings_dropdown_open == old(self).settings_dropdown_open,
            final(self).fps_selector_open == old(self).fps_selector_open,
            final(self).settings_attention == old(self).settings_attention,
            final(self).current_fps == old(self).current_fps,
            final(self).open_selectors == old(self).open_selectors,
    {
        let state_changed = !self.cache_valid || self.cached_window_width != window_width
            || self.cached_is_maximized != is_maximized;
        if state_changed {
            self.cache_valid = true;
            self.cached_window_width = window_width;
            self.cached_is_maximized = is_maximized;
        }
        state_changed
    }

    /// Applies a header action to the menus and the frame limit, and says what
    /// the window has to do. Every action but `NoAction` changes something and
    /// invalidates the render cache.
    pub fn handle_action(&mut self, action: EngineHeaderAction) -> (r: HeaderReply)
        ensures
            r.changed == (action != EngineHeaderAction::NoAction),
            r.command == command_of(action),
            (final(self).settings_dropdown_open, final(self).fps_selector_open, final(self).current_fps)
                == menus_after(
                old(self).settings_dropdown_open,
                old(self).fps_selector_open,
                old(self).current_fps,
                action,
            ),
            final(self).spec_cache_valid() == (old(self).spec_cache_valid() && !r.changed),
            final(self).spec_cached_width() == old(self).spec_cached_width(),
            final(self).spec_cached_maximized() == old(self).spec_cached_maximized(),
            final(self).title == old(self).title,
            final(self).settings_attention == old(self).settings_attention,
            final(self).open_selectors == old(self).open_selectors,
    {
        let mut changed = true;
        let mut command = WindowCommand::Stay;
        match action {
            EngineHeaderAction::ToggleSettings => {
                self.settings_dropdown_open = !self.settings_dropdown_open;
                if !self.settings_dropdown_open {
                    self.fps_selector_open = false;
                }
            },
            EngineHeaderAction::ToggleFpsMenu => {
                self.fps_selector_open = !self.fps_selector_open;
            },
            EngineHeaderAction::SetFpsAuto => {
                self.current_fps.is_auto = true;
                self.fps_selector_open = false;
            },
            EngineHeaderAction::SetFps30 => {
                self.current_fps = FpsLimit { value: 30, is_auto: false };
                self.fps_selector_open = false;
            },
            EngineHeaderAction::SetFps60 => {
                self.current_fps = FpsLimit { value: 60, is_auto: false };
                self.fps_selector_open = false;
            },
            EngineHeaderAction::SetFps144 => {
                self.current_fps = FpsLimit { value: 144, is_auto: false };
                self.fps_selector_open = false;
            },
            EngineHeaderAction::SetFps240 => {
                self.current_fps = FpsLimit { value: 240, is_auto: false };
                self.fps_selector_open = false;
            },
            EngineHeaderAction::MinimizeWindow => {
                command = WindowCommand::Minimize;
            },
            EngineHeaderAction::MaximizeWindow => {
                command = WindowCommand::ToggleMaximize;
            },
            EngineHeaderAction::CloseWindow => {},
            EngineHeaderAction::Drag => {
                command = WindowCommand::StartDrag;
            },
            EngineHeaderAction::NoAction => {
                changed = false;
            },
        }
        if changed {
            self.invalidate_cache();
        }
        HeaderReply { changed, command }
    }

    /// A click outside the dropdown that is not on the settings button closes
    /// the menus.
    pub fn close_menus_on_click(&mut self, zone: UiZone, action: EngineHeaderAction)
        ensures
            (zone != UiZone::Runtime(RuntimeZone::Dropdown) && action
                != EngineHeaderAction::ToggleSettings) ==> !final(self).settings_dropdown_open
                && !final(self).fps_selector_open,
            !(zone != UiZone::Runtime(RuntimeZone::Dropdown) && action
                != EngineHeaderAction::ToggleSettings) ==> final(self).settings_dropdown_open
                == old(self).settings_dropdown_open && final(self).fps_selector_open
                == old(self).fps_selector_open,
            final(self).spec_cache_valid() == old(self).spec_cache_valid(),
            final(self).spec_cached_width() == old(self).spec_cached_width(),
            final(self).spec_cached_maximized() == old(self).spec_cached_maximized(),
            final(self).title == old(self).title,
            final(self).settings_attention == old(self).settings_attention,
            final(self).current_fps == old(self).current_fps,
            final(self).open_selectors == old(self).open_selectors,
    {
        let in_dropdown = match zone {
            UiZone::Runtime(RuntimeZone::Dropdown) => true,
            _ => false,
        };
        if !in_dropdown && action != EngineHeaderAction::ToggleSettings {
            self.settings_dropdown_open = false;
            self.fps_selector_open = false;
        }
    }

    /// Whether the selector `id` is open.
    pub fn selector_open(&self, id: &'static str) -> (r: bool)
        ensures
            r == self.open_selectors@.contains(id@),
    {
        self.open_selectors.selector_open(id)
    }

    /// Toggles the selector `id`, closing every other one when it opens.
    pub fn toggle_selector(&mut self, id: &'static str)
        ensures
            old(self).open_selectors@.contains(id@) ==> final(self).open_selectors@
                == old(self).open_selectors@.remove(id@),
            !old(self).open_selectors@.contains(id@) ==> final(self).open_selectors@ == Set::<
                Seq<char>,
            >::empty().insert(id@),
            final(self).same_but_selectors(old(self)),
    {
        self.open_selectors.toggle_selector(id);
    }

    /// Closes the selector `id`.
    pub fn close_selector(&mut self, id: &'static str)
        ensures
            final(self).open_selectors@ == old(self).open_selectors@.remove(id@),
            final(self).same_but_selectors(old(self)),
    {
        self.open_selectors.close_selector(id);
    }
}

} // verus!
