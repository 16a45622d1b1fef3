//! The session of the picker: what is selected, typed and shown, and what
//! each message does to it.

use vstd::prelude::*;
use vstd::string::StringExecFns;
use crate::config::{Annotations, ClickMode, ColorButton, Config};
use crate::emoji::Emoji;
use crate::favorites::{after_use, record_use, texts};
use crate::filter::{filter, positions, shown, shown_favorites};
use crate::group::{cycle_left, cycle_right, selection_index, Group};
use crate::scrollable::geometry::WHOLE;
use crate::scrollable::offset::{clamp, AbsoluteOffset, RelativeOffset, Viewport};
use crate::skin_tone::SkinToneMode;

verus! {

/// The identifier of the application.
pub const ID: &'static str = "dev.dominiccgeh.CosmicAppletEmojiSelector";

/// What the picker starts with.
pub struct Flags {
    pub config: Config,
    pub annotations: Annotations,
}

/// What happened: an input of the user or a notice of the shell.
pub enum Message {
    /// The stored configuration has changed.
    Config(Config),
    /// The panel icon was clicked; the number is the identifier of the popup
    /// to open, if none is open.
    TogglePopup(u64),
    /// The shell has closed the popup with this identifier.
    PopupClosed(u64),
    /// A category was selected, or all categories.
    Group(Option<Group>),
    /// The emoji at this position of the catalog was clicked.
    EmojiCopy(usize, ClickMode),
    /// The search text was edited.
    Search(String),
    /// The pointer has entered the emoji at this position of the catalog.
    EmojiHovered(usize),
    Exit,
    FocusTextInput,
    Enter,
    ArrowRight,
    ArrowLeft,
    /// The emoji list was scrolled.
    ScrollViewport(Viewport),
    /// Scroll by a number of pixels.
    ScrollPixels(i32),
    /// Move the emoji list by a part of its range, in millionths.
    Snap(i64),
    /// The skin-tone button at this position was clicked.
    ToggleColorButton(usize),
}

/// What the picker asks of the shell.
#[derive(Clone, Copy, Debug, PartialEq, Eq, Structural)]
pub enum Command {
    /// Close the popup with this identifier.
    DestroyPopup(u64),
    /// Open a popup with this identifier.
    GetPopup(u64),
    /// Scroll the emoji list to a position.
    ScrollTo(AbsoluteOffset),
    /// Snap the emoji list to a part of its range.
    SnapTo(RelativeOffset),
    /// Write the characters of the emoji at this position of the catalog to
    /// the clipboard.
    WriteClipboard(usize),
    /// Put the keyboard focus into the search field.
    FocusTextInput,
    /// Store the list of recently used emoji.
    SaveLastUsed,
    /// Store the skin-tone configuration and the skin-tone buttons.
    SaveSkinTones,
    /// Load the font of the configuration.
    LoadFont,
}

/// The session of the picker.
pub struct Window {
    /// The catalog.
    pub all_emojis: Vec<Emoji>,
    /// The entries that are shown, by their positions in the catalog.
    pub emojis_filtered: Vec<usize>,
    /// Those of the shown entries that were recently used.
    pub favorites_filtered: Vec<usize>,
    pub annotations: Annotations,
    pub config: Config,
    /// The identifier of the open popup.
    pub popup: Option<u64>,
    pub selected_group: Option<Group>,
    pub search: String,
    /// The entry under the pointer, by its position in the catalog.
    pub emoji_hovered: Option<usize>,
    /// The position of the emoji list as a part of its range.
    pub snap: RelativeOffset,
    /// What the emoji list last reported of itself.
    pub viewport: Option<Viewport>,
}

/// The amount of a snap to the end of the list.
pub const SNAP_END: i64 = 1_000_000;

/// The amount of a snap to the start of the list.
pub const SNAP_START: i64 = -1_000_000;

/// The amount of a snap by a page down; a page up is as much the other way.
pub const SNAP_PAGE: i64 = 150_000;

/// The distance that an arrow key scrolls.
pub const ARROW_PIXELS: i32 = 50;

impl Window {
    /// Whether every position that the session holds lies in the catalog.
    pub open spec fn wf(&self) -> bool {
        &&& forall|k: int|
            0 <= k < self.emojis_filtered@.len() ==> #[trigger] self.emojis_filtered@[k]
                < self.all_emojis@.len()
        &&& forall|k: int|
            0 <= k < self.favorites_filtered@.len() ==> #[trigger] self.favorites_filtered@[k]
                < self.all_emojis@.len()
        &&& match self.emoji_hovered {
            Some(position) => position < self.all_emojis@.len(),
            None => true,
        }
    }

    /// Whether two sessions hold the same catalog and annotations.
    pub open spec fn same_catalog(&self, other: &Window) -> bool {
        &&& self.all_emojis == other.all_emojis
        &&& self.annotations == other.annotations
    }

    /// Whether two sessions agree in what scrolling and the popup are about.
    pub open spec fn same_surroundings(&self, other: &Window) -> bool {
        &&& self.popup == other.popup
        &&& self.snap == other.snap
        &&& self.viewport == other.viewport
    }

    /// Whether two sessions show the same entries.
    pub open spec fn same_lists(&self, other: &Window) -> bool {
        &&& self.emojis_filtered == other.emojis_filtered
        &&& self.favorites_filtered == other.favorites_filtered
        &&& self.emoji_hovered == other.emoji_hovered
        &&& self.selected_group == other.selected_group
    }

    /// Whether the lists of shown entries are those of a filter pass over
    /// the session's catalog with the session's settings.
    pub open spec fn filtered(&self) -> bool {
        &&& positions(self.emojis_filtered@) == shown(
            self.all_emojis@,
            self.annotations@,
            self.selected_group,
            self.config.skin_tone_mode,
            self.search@,
        )
        &&& positions(self.favorites_filtered@) == shown_favorites(
            self.all_emojis@,
            self.annotations@,
            self.selected_group,
            self.config.skin_tone_mode,
            self.search@,
            texts(self.config.last_used@),
        )
    }

    /// The snap position after a move by an amount: each axis moves by the
    /// amount and stays between the start and the end.
    pub open spec fn snapped(snap: RelativeOffset, amount: i64) -> RelativeOffset {
        RelativeOffset {
            x: clamp(snap.x + amount, 0, WHOLE as int) as i64,
            y: clamp(snap.y + amount, 0, WHOLE as int) as i64,
        }
    }
}

/// A session after a filter pass with the category `group` and the search
/// text `search`: nothing is hovered, the lists of shown entries are those
/// of the pass, and all else is as before.
pub open spec fn after_filter(
    before: Window,
    after: Window,
    group: Option<Group>,
    search: Seq<char>,
) -> bool {
    &&& after.selected_group == group
    &&& after.search@ == search
    &&& after.emoji_hovered is None
    &&& after.filtered()
    &&& after.wf()
    &&& after.same_catalog(&before)
    &&& after.same_surroundings(&before)
    &&& after.config == before.config
}

/// What a click asks of the shell: where it copies and is not private, to
/// store the list of recently used emoji; where it copies, to write to the
/// clipboard; where it closes and a popup is open, to close the popup.
pub open spec fn copy_commands(click_mode: ClickMode, position: usize, popup: Option<u64>) -> Seq<
    Command,
> {
    let save = if click_mode.has(ClickMode::COPY) && !click_mode.has(ClickMode::PRIVATE) {
        seq![Command::SaveLastUsed]
    } else {
        Seq::empty()
    };
    let write = if click_mode.has(ClickMode::COPY) {
        seq![Command::WriteClipboard(position)]
    } else {
        Seq::empty()
    };
    let close = match popup {
        Some(popup) => if click_mode.has(ClickMode::CLOSE) {
            seq![Command::DestroyPopup(popup)]
        } else {
            Seq::empty()
        },
        None => Seq::empty(),
    };
    save + write + close
}

/// Whether two configurations agree in all but the list of recently used
/// emoji.
pub open spec fn same_settings(a: Config, b: Config) -> bool {
    &&& a.color_buttons == b.color_buttons
    &&& a.left_click_action == b.left_click_action
    &&& a.right_click_action == b.right_click_action
    &&& a.middle_click_action == b.middle_click_action
    &&& a.last_used_limit == b.last_used_limit
    &&& a.font_family == b.font_family
    &&& a.show_preview == b.show_preview
    &&& a.skin_tone_mode == b.skin_tone_mode
}

/// A session after a click on the emoji at a position of the catalog, and
/// what the click asks of the shell. As far as the actions of the click
/// say, the emoji is appended to the search text, put first in the list of
/// recently used emoji and written to the clipboard, and the popup is
/// closed. The entries that are shown stay until the next filter pass. A
/// position outside the catalog does nothing.
pub open spec fn after_copy(
    before: Window,
    after: Window,
    position: usize,
    click_mode: ClickMode,
    commands: Seq<Command>,
) -> bool {
    if position < before.all_emojis@.len() {
        let glyph = before.all_emojis@[position as int].glyph@;
        &&& commands == copy_commands(click_mode, position, before.popup)
        &&& after.search@ == if click_mode.has(ClickMode::APPEND) {
            before.search@ + glyph
        } else {
            before.search@
        }
        &&& texts(after.config.last_used@) == if click_mode.has(ClickMode::COPY)
            && !click_mode.has(ClickMode::PRIVATE) {
            after_use(
                texts(before.config.last_used@),
                glyph,
                before.config.last_used_limit as int,
            )
        } else {
            texts(before.config.last_used@)
        }
        &&& after.popup == if click_mode.has(ClickMode::CLOSE) {
            None
        } else {
            before.popup
        }
        &&& same_settings(after.config, before.config)
        &&& after.same_catalog(&before)
        &&& after.same_lists(&before)
        &&& after.snap == before.snap
        &&& after.viewport == before.viewport
    } else {
        commands.len() == 0 && after == before
    }
}

/// The buttons after a click on one of them: that button is switched over,
/// the others stay.
pub open spec fn toggled_buttons(buttons: Seq<ColorButton>, position: int) -> Seq<ColorButton> {
    buttons.update(position, ColorButton { active: !buttons[position].active, ..buttons[position] })
}

/// The skin-tone configuration after a click on a button: the bits of the
/// button are set where the button is now on, and cleared where it is off.
pub open spec fn toggled_mode(mode: SkinToneMode, button: ColorButton) -> SkinToneMode {
    SkinToneMode {
        bits: if !button.active {
            mode.bits | button.skin_tone_mode.bits
        } else {
            mode.bits & !button.skin_tone_mode.bits
        },
    }
}

/// A session after a click on the skin-tone button at a position, and what
/// the click asks of the shell: the button is switched over, its tones are
/// switched on or off with it, both are to be stored, and the entries are
/// filtered anew. A position at which there is no button does nothing.
pub open spec fn after_toggle(
    before: Window,
    after: Window,
    position: usize,
    commands: Seq<Command>,
) -> bool {
    if position < before.config.color_buttons@.len() {
        &&& commands == seq![Command::SaveSkinTones]
        &&& after.config.color_buttons@ == toggled_buttons(
            before.config.color_buttons@,
            position as int,
        )
        &&& after.config.skin_tone_mode == toggled_mode(
            before.config.skin_tone_mode,
            before.config.color_buttons@[position as int],
        )
        &&& after.config.last_used == before.config.last_used
        &&& after.config.last_used_limit == before.config.last_used_limit
        &&& after.config.left_click_action == before.config.left_click_action
        &&& after.config.right_click_action == before.config.right_click_action
        &&& after.config.middle_click_action == before.config.middle_click_action
        &&& after.config.font_family == before.config.font_family
        &&& after.config.show_preview == before.config.show_preview
        &&& after.selected_group == before.selected_group
        &&& after.search@ == before.search@
        &&& after.emoji_hovered is None
        &&& after.filtered()
        &&& after.wf()
        &&& after.same_catalog(&before)
        &&& after.same_surroundings(&before)
    } else {
        commands.len() == 0 && after == before
    }
}

/// A session after a message, and what the message asks of the shell.
pub open spec fn after_message(
    before: Window,
    after: Window,
    message: Message,
    commands: Seq<Command>,
) -> bool {
    match message {
        Message::Search(search) => commands.len() == 0 && after_filter(
            before,
            after,
            before.selected_group,
            search@,
        ),
        Message::Group(group) => commands == seq![
            Command::ScrollTo(AbsoluteOffset { x: 0, y: 0 }),
        ] && after_filter(before, after, group, before.search@),
        Message::ArrowRight => commands == seq![
            Command::ScrollTo(AbsoluteOffset { x: 0, y: 0 }),
        ] && after_filter(before, after, after.selected_group, before.search@) && selection_index(
            after.selected_group,
        ) == (selection_index(before.selected_group) + 1) % 10,
        Message::ArrowLeft => commands == seq![
            Command::ScrollTo(AbsoluteOffset { x: 0, y: 0 }),
        ] && after_filter(before, after, after.selected_group, before.search@) && selection_index(
            after.selected_group,
        ) == (selection_index(before.selected_group) + 9) % 10,
        Message::EmojiCopy(position, click_mode) => after_copy(
            before,
            after,
            position,
            click_mode,
            commands,
        ),
        Message::Enter => match before.spec_emoji_selected() {
            Some(position) => after_copy(
                before,
                after,
                position,
                ClickMode { bits: ClickMode::COPY | ClickMode::CLOSE },
                commands,
            ),
            None => commands.len() == 0 && after == before,
        },
        Message::EmojiHovered(position) => commands.len() == 0 && after == (Window {
            emoji_hovered: if position < before.all_emojis@.len() {
                Some(position)
            } else {
                before.emoji_hovered
            },
            ..before
        }),
        Message::Exit => after == (Window { popup: None, ..before }) && commands == match before.popup {
            Some(popup) => seq![Command::DestroyPopup(popup)],
            None => Seq::empty(),
        },
        Message::TogglePopup(new_id) => match before.popup {
            Some(popup) => commands == seq![Command::DestroyPopup(popup)] && after == (Window {
                popup: None,
                ..before
            }),
            None => commands == seq![Command::GetPopup(new_id)] && after == (Window {
                popup: Some(new_id),
                ..before
            }),
        },
        Message::PopupClosed(id) => commands.len() == 0 && after == (Window {
            popup: if before.popup == Some(id) {
                None
            } else {
                before.popup
            },
            ..before
        }),
        Message::FocusTextInput => commands == seq![Command::FocusTextInput] && after == before,
        Message::ScrollViewport(viewport) => commands.len() == 0 && after == (Window {
            snap: viewport.spec_relative_offset(),
            viewport: Some(viewport),
            ..before
        }),
        Message::ScrollPixels(_) => commands.len() == 0 && after == before,
        Message::Snap(amount) => commands == seq![
            Command::SnapTo(Window::snapped(before.snap, amount)),
        ] && after == (Window { snap: Window::snapped(before.snap, amount), ..before }),
        Message::ToggleColorButton(position) => after_toggle(before, after, position, commands),
        Message::Config(config) => after == (Window { config, ..before }) && commands == if config.font_family@
            != before.config.font_family@ {
            seq![Command::LoadFont]
        } else {
            Seq::empty()
        },
    }
}

impl Window {
    /// The session of a picker that has just started, and the first
    /// message to send to it. Nothing is selected, typed or hovered, no
    /// popup is open, and every entry of the catalog is listed as shown. The
    /// message asks for a search with the empty text, which is the first
    /// filter pass.
    pub fn init(catalog: Vec<Emoji>, flags: Flags) -> (start: (Window, Message))
        ensures
            start.0.all_emojis == catalog,
            start.0.config == flags.config,
            start.0.annotations == flags.annotations,
            start.0.selected_group is None,
            start.0.search@.len() == 0,
            start.0.emoji_hovered is None,
            start.0.popup is None,
            start.0.viewport is None,
            start.0.snap == (RelativeOffset { x: 0, y: 0 }),
            positions(start.0.emojis_filtered@) == Seq::new(
                catalog@.len(),
                |position: int| position,
            ),
            start.0.favorites_filtered@.len() == 0,
            start.0.wf(),
            start.1 matches Message::Search(search) && search@.len() == 0,
    {
        let mut emojis_filtered: Vec<usize> = Vec::new();
        let mut index: usize = 0;
        while index < catalog.len()
            invariant
                index <= catalog.len(),
                emojis_filtered@.len() == index,
                forall|k: int| 0 <= k < index ==> emojis_filtered@[k] == k,
            decreases catalog.len() - index,
        {
            emojis_filtered.push(index);
            index = index + 1;
        }
        assert(positions(emojis_filtered@) =~= Seq::new(catalog@.len(), |position: int| position));
        let window = Window {
            all_emojis: catalog,
            emojis_filtered,
            favorites_filtered: Vec::new(),
            annotations: flags.annotations,
            config: flags.config,
            popup: None,
            selected_group: None,
            search: String::new(),
            emoji_hovered: None,
            snap: RelativeOffset { x: 0, y: 0 },
            viewport: None,
        };
        (window, Message::Search(String::new()))
    }

    /// The emoji that the Enter key copies and that the preview shows: the
    /// one under the pointer, else the first recently used one that is
    /// shown, else the first one that is shown.
    pub open spec fn spec_emoji_selected(&self) -> Option<usize> {
        if self.emoji_hovered is Some {
            self.emoji_hovered
        } else if self.favorites_filtered@.len() > 0 {
            Some(self.favorites_filtered@[0])
        } else if self.emojis_filtered@.len() > 0 {
            Some(self.emojis_filtered@[0])
        } else {
            None
        }
    }

    /// The emoji that is currently relevant.
    #[verifier::when_used_as_spec(spec_emoji_selected)]
    pub fn emoji_selected(&self) -> (selected: Option<usize>)
        ensures
            selected == self.spec_emoji_selected(),
            self.wf() ==> (selected matches Some(position) ==> position < self.all_emojis@.len()),
    {
        if self.emoji_hovered.is_some() {
            self.emoji_hovered
        } else if self.favorites_filtered.len() > 0 {
            Some(self.favorites_filtered[0])
        } else if self.emojis_filtered.len() > 0 {
            Some(self.emojis_filtered[0])
        } else {
            None
        }
    }

    /// The name under which an emoji is shown and found in this session.
    pub fn emoji_name_localized<'a>(&'a self, emoji: &'a Emoji) -> (name: &'a str)
        ensures
            name@ == crate::filter::localized_name(self.annotations@, emoji@),
    {
        crate::filter::emoji_name_localized(&self.annotations, emoji)
    }

    /// A new search text: nothing is hovered any more, and the lists of
    /// shown entries are those of a filter pass with the new text.
    pub fn search(&mut self, search: String)
        ensures
            after_filter(*old(self), *final(self), old(self).selected_group, search@),
    {
        self.search = search;
        self.emoji_hovered = None;
        let filtered = filter(
            &self.all_emojis,
            &self.annotations,
            self.selected_group,
            self.config.skin_tone_mode,
            self.search.as_str(),
            &self.config.last_used,
        );
        self.emojis_filtered = filtered.emojis;
        self.favorites_filtered = filtered.favorites;
        proof {
            crate::filter::lemma_filter_result(
                self.all_emojis@,
                self.annotations@,
                self.selected_group,
                self.config.skin_tone_mode,
                self.search@,
                texts(self.config.last_used@),
            );
            let all = positions(self.emojis_filtered@);
            let favorites = positions(self.favorites_filtered@);
            assert forall|k: int| 0 <= k < self.emojis_filtered@.len() implies
                #[trigger] self.emojis_filtered@[k] < self.all_emojis@.len() by {
                assert(all[k] == self.emojis_filtered@[k]);
            }
            assert forall|k: int| 0 <= k < self.favorites_filtered@.len() implies
                #[trigger] self.favorites_filtered@[k] < self.all_emojis@.len() by {
                assert(favorites[k] == self.favorites_filtered@[k]);
                assert(all.contains(favorites[k]));
                let j = choose|j: int| 0 <= j < all.len() && all[j] == favorites[k];
                assert(all[j] == self.emojis_filtered@[j]);
            }
        }
    }

    /// Another category: nothing is hovered any more, the list goes back to
    /// its start, and the entries are filtered anew with the text that is
    /// typed.
    pub fn update_group(&mut self, group: Option<Group>) -> (command: Command)
        ensures
            command == Command::ScrollTo(AbsoluteOffset { x: 0, y: 0 }),
            after_filter(*old(self), *final(self), group, old(self).search@),
    {
        self.emoji_hovered = None;
        self.selected_group = group;
        let search = self.search.clone();
        self.search(search);
        Command::ScrollTo(AbsoluteOffset { x: 0, y: 0 })
    }

    /// Closes the popup, if one is open.
    pub fn exit(&mut self) -> (command: Option<Command>)
        ensures
            command == match old(self).popup {
                Some(popup) => Some(Command::DestroyPopup(popup)),
                None => None,
            },
            *final(self) == (Window { popup: None, ..*old(self) }),
    {
        match self.popup {
            Some(popup) => {
                self.popup = None;
                Some(Command::DestroyPopup(popup))
            },
            None => None,
        }
    }

    /// A click on the panel icon: closes the open popup, or opens one with
    /// the given identifier.
    pub fn toggle_popup(&mut self, new_id: u64) -> (command: Command)
        ensures
            match old(self).popup {
                Some(popup) => command == Command::DestroyPopup(popup) && *final(self) == (Window {
                    popup: None,
                    ..*old(self)
                }),
                None => command == Command::GetPopup(new_id) && *final(self) == (Window {
                    popup: Some(new_id),
                    ..*old(self)
                }),
            },
    {
        match self.popup {
            Some(popup) => {
                self.popup = None;
                Command::DestroyPopup(popup)
            },
            None => {
                self.popup = Some(new_id);
                Command::GetPopup(new_id)
            },
        }
    }

    /// Moves the emoji list by a part of its range.
    pub fn snap_by(&mut self, amount: i64) -> (command: Command)
        ensures
            command == Command::SnapTo(Self::snapped(old(self).snap, amount)),
            *final(self) == (Window { snap: Self::snapped(old(self).snap, amount), ..*old(self) }),
    {
        self.snap = RelativeOffset {
            x: moved(self.snap.x, amount),
            y: moved(self.snap.y, amount),
        };
        Command::SnapTo(self.snap)
    }

    /// The emoji list has scrolled: its viewport and its relative position
    /// are remembered.
    pub fn scrolled(&mut self, viewport: Viewport)
        ensures
            *final(self) == (Window {
                snap: viewport.spec_relative_offset(),
                viewport: Some(viewport),
                ..*old(self)
            }),
    {
        self.snap = viewport.relative_offset();
        self.viewport = Some(viewport);
    }

    /// A click on the emoji at a position of the catalog, with the actions
    /// of the button that was clicked.
    pub fn copy(&mut self, position: usize, click_mode: ClickMode) -> (commands: Vec<Command>)
        ensures
            after_copy(*old(self), *final(self), position, click_mode, commands@),
            old(self).wf() ==> final(self).wf(),
    {
        let mut commands: Vec<Command> = Vec::new();
        if position >= self.all_emojis.len() {
            return commands;
        }
        if click_mode.intersects(ClickMode::from_bits(ClickMode::APPEND)) {
            self.search.append(self.all_emojis[position].glyph.as_str());
        }
        if click_mode.intersects(ClickMode::from_bits(ClickMode::COPY)) {
            if !click_mode.intersects(ClickMode::from_bits(ClickMode::PRIVATE)) {
                record_use(
                    &mut self.config.last_used,
                    self.all_emojis[position].glyph.as_str(),
                    self.config.last_used_limit,
                );
                commands.push(Command::SaveLastUsed);
            }
            commands.push(Command::WriteClipboard(position));
        }
        if click_mode.intersects(ClickMode::from_bits(ClickMode::CLOSE)) {
            if let Some(command) = self.exit() {
                commands.push(command);
            }
        }
        assert(commands@ =~= copy_commands(click_mode, position, old(self).popup));
        commands
    }

    /// The Enter key: copies the emoji that is currently relevant and
    /// closes the popup; does nothing where no emoji is shown.
    pub fn enter(&mut self) -> (commands: Vec<Command>)
        ensures
            match old(self).spec_emoji_selected() {
                Some(position) => after_copy(
                    *old(self),
                    *final(self),
                    position,
                    ClickMode { bits: ClickMode::COPY | ClickMode::CLOSE },
                    commands@,
                ),
                None => commands@.len() == 0 && *final(self) == *old(self),
            },
            old(self).wf() ==> final(self).wf(),
    {
        match self.emoji_selected() {
            Some(position) => self.copy(
                position,
                ClickMode::from_bits(ClickMode::COPY | ClickMode::CLOSE),
            ),
            None => Vec::new(),
        }
    }

    /// The pointer has entered an emoji: it is the one that is relevant
    /// from now on. A position outside the catalog does nothing.
    pub fn hover(&mut self, position: usize)
        ensures
            *final(self) == (Window {
                emoji_hovered: if position < old(self).all_emojis@.len() {
                    Some(position)
                } else {
                    old(self).emoji_hovered
                },
                ..*old(self)
            }),
            old(self).wf() ==> final(self).wf(),
    {
        if position < self.all_emojis.len() {
            self.emoji_hovered = Some(position);
        }
    }

    /// The shell has closed a popup: if it is the one that is open, none is
    /// open any more.
    pub fn popup_closed(&mut self, id: u64)
        ensures
            *final(self) == (Window {
                popup: if old(self).popup == Some(id) {
                    None
                } else {
                    old(self).popup
                },
                ..*old(self)
            }),
    {
        if let Some(popup) = self.popup {
            if popup == id {
                self.popup = None;
            }
        }
    }

    /// A click on a skin-tone button: the button is switched over and its
    /// tones are switched on or off with it; the entries are then filtered
    /// anew.
    pub fn toggle_color_button(&mut self, position: usize) -> (command: Option<Command>)
        ensures
            after_toggle(
                *old(self),
                *final(self),
                position,
                match command {
                    Some(command) => seq![command],
                    None => Seq::empty(),
                },
            ),
            command is Some <==> position < old(self).config.color_buttons@.len(),
    {
        if position >= self.config.color_buttons.len() {
            return None;
        }
        let mut button: ColorButton = self.config.color_buttons[position];
        button.active = !button.active;
        let mut skin_tone_mode = self.config.skin_tone_mode;
        skin_tone_mode.set(button.skin_tone_mode, button.active);
        self.config.skin_tone_mode = skin_tone_mode;
        self.config.color_buttons[position] = button;
        let search = self.search.clone();
        self.search(search);
        Some(Command::SaveSkinTones)
    }

    /// The stored configuration has changed: it takes the place of the one
    /// in use, and the font is loaded anew where its name has changed.
    pub fn set_config(&mut self, config: Config) -> (command: Option<Command>)
        ensures
            *final(self) == (Window { config, ..*old(self) }),
            command == if config.font_family@ != old(self).config.font_family@ {
                Some(Command::LoadFont)
            } else {
                None
            },
    {
        let font_changed = !(config.font_family == self.config.font_family);
        self.config = config;
        if font_changed {
            Some(Command::LoadFont)
        } else {
            None
        }
    }

    /// Applies a message to the session and says what to ask of the shell.
    pub fn update(&mut self, message: Message) -> (commands: Vec<Command>)
        ensures
            after_message(*old(self), *final(self), message, commands@),
            final(self).same_catalog(old(self)),
            old(self).wf() ==> final(self).wf(),
    {
        let mut commands: Vec<Command> = Vec::new();
        match message {
            Message::Search(search) => {
                self.search(search);
            },
            Message::Group(group) => {
                let command = self.update_group(group);
                commands.push(command);
            },
            Message::ArrowRight => {
                let command = self.update_group(cycle_right(self.selected_group));
                commands.push(command);
            },
            Message::ArrowLeft => {
                let command = self.update_group(cycle_left(self.selected_group));
                commands.push(command);
            },
            Message::EmojiCopy(position, click_mode) => {
                commands = self.copy(position, click_mode);
            },
            Message::Enter => {
                commands = self.enter();
            },
            Message::EmojiHovered(position) => {
                self.hover(position);
            },
            Message::Exit => {
                if let Some(command) = self.exit() {
                    commands.push(command);
                }
            },
            Message::TogglePopup(new_id) => {
                let command = self.toggle_popup(new_id);
                commands.push(command);
            },
            Message::PopupClosed(id) => {
                self.popup_closed(id);
            },
            Message::FocusTextInput => {
                commands.push(Command::FocusTextInput);
            },
            Message::ScrollViewport(viewport) => {
                self.scrolled(viewport);
            },
            Message::ScrollPixels(_) => {},
            Message::Snap(amount) => {
                let command = self.snap_by(amount);
                commands.push(command);
            },
            Message::ToggleColorButton(position) => {
                if let Some(command) = self.toggle_color_button(position) {
                    commands.push(command);
                }
            },
            Message::Config(config) => {
                if let Some(command) = self.set_config(config) {
                    commands.push(command);
                }
            },
        }
        commands
    }
}

fn moved(part: i64, amount: i64) -> (next: i64)
    ensures
        next == clamp(part + amount, 0, WHOLE as int),
{
    let sum: i128 = part as i128 + amount as i128;
    if sum < 0 {
        0
    } else if sum > WHOLE as i128 {
        WHOLE
    } else {
        sum as i64
    }
}

} // verus!
