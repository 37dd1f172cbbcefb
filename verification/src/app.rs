use vstd::prelude::*;
use crate::editor::{Item, PopupEditor};
use crate::list::{next_sel, prev_sel, CyclicSelectionList};

verus! {

/// How raw key events are interpreted: as navigation commands (`Normal`)
/// or as text entry into the popup (`Editing`).
#[derive(Clone, Copy, PartialEq, Eq, Structural, Debug)]
pub enum InputMode {
    Normal,
    Editing,
}

/// The key codes the application reacts to; anything else is `Other`.
#[derive(Clone, Copy, PartialEq, Eq, Structural, Debug)]
pub enum KeyCode {
    Char(char),
    Enter,
    Esc,
    Backspace,
    Left,
    Down,
    Up,
    Other,
}

/// The modifier state of a key event: no modifier, shift alone, or any
/// other combination.
#[derive(Clone, Copy, PartialEq, Eq, Structural, Debug)]
pub enum KeyModifier {
    Unmodified,
    Shift,
    Other,
}

/// The mathematical state of one item: its characters and its priority.
pub struct ItemModel {
    pub text: Seq<char>,
    pub priority: int,
}

/// The mathematical state of the whole application.
#[verifier::ext_equal]
pub struct AppModel {
    pub items: Seq<ItemModel>,
    pub selected: Option<int>,
    pub mode: InputMode,
    pub buffer: Seq<char>,
    pub popup: bool,
}

/// The application state after one key event, following the transition
/// table: in `Normal`, `p` opens the popup and enters `Editing`, and the
/// arrow keys drive the selection; in `Editing`, `Enter` commits the
/// buffer as a new item, printable characters and `Backspace` edit the
/// buffer while the popup is visible, `Shift+Enter` is a reserved no-op,
/// and `Esc` cancels; every other combination changes nothing.
pub open spec fn step(m: AppModel, code: KeyCode, mods: KeyModifier) -> AppModel {
    match (m.mode, code) {
        (InputMode::Normal, KeyCode::Char(c)) => {
            if c == 'p' && mods == KeyModifier::Unmodified {
                AppModel { mode: InputMode::Editing, popup: true, ..m }
            } else {
                m
            }
        },
        (InputMode::Normal, KeyCode::Left) => AppModel { selected: Option::None, ..m },
        (InputMode::Normal, KeyCode::Down) => AppModel {
            selected: next_sel(m.selected, m.items.len() as int),
            ..m
        },
        (InputMode::Normal, KeyCode::Up) => AppModel {
            selected: prev_sel(m.selected, m.items.len() as int),
            ..m
        },
        (InputMode::Editing, KeyCode::Enter) => {
            if mods == KeyModifier::Unmodified {
                AppModel {
                    mode: InputMode::Normal,
                    popup: false,
                    items: m.items.push(ItemModel { text: m.buffer, priority: 1 }),
                    buffer: Seq::empty(),
                    ..m
                }
            } else {
                m
            }
        },
        (InputMode::Editing, KeyCode::Char(c)) => {
            if m.popup {
                AppModel { buffer: m.buffer.push(c), ..m }
            } else {
                m
            }
        },
        (InputMode::Editing, KeyCode::Backspace) => {
            if m.popup && mods == KeyModifier::Unmodified && m.buffer.len() > 0 {
                AppModel { buffer: m.buffer.drop_last(), ..m }
            } else {
                m
            }
        },
        (InputMode::Editing, KeyCode::Esc) => {
            if m.popup && mods == KeyModifier::Unmodified {
                AppModel { mode: InputMode::Normal, popup: false, buffer: Seq::empty(), ..m }
            } else {
                m
            }
        },
        _ => m,
    }
}

/// Whether the key event asks the event loop to terminate: only `Esc`
/// with no modifier, and only in `Normal` mode.
pub open spec fn step_quits(m: AppModel, code: KeyCode, mods: KeyModifier) -> bool {
    m.mode == InputMode::Normal && code == KeyCode::Esc && mods == KeyModifier::Unmodified
}

/// The popup is visible if and only if the mode is `Editing`.
pub open spec fn popup_mode_synced(m: AppModel) -> bool {
    m.popup <==> m.mode == InputMode::Editing
}

/// Every transition of the table keeps the popup visibility and the input
/// mode in lockstep: a state where they agree steps only to states where
/// they agree, so the equivalence holds before and after every single key
/// event of any sequence.
pub proof fn lemma_step_preserves_popup_sync(m: AppModel, code: KeyCode, mods: KeyModifier)
    requires
        popup_mode_synced(m),
    ensures
        popup_mode_synced(step(m, code, mods)),
{
}

/// The application: the item list, the input mode, the popup editor and
/// the popup-visibility flag.
pub struct App {
    pub items: CyclicSelectionList<Item>,
    pub input_mode: InputMode,
    pub editor: PopupEditor,
    pub show_popup: bool,
}

impl View for Item {
    type V = ItemModel;

    open spec fn view(&self) -> ItemModel {
        ItemModel { text: self.text@, priority: self.priority as int }
    }
}

impl View for App {
    type V = AppModel;

    open spec fn view(&self) -> AppModel {
        AppModel {
            items: self.items.items@.map_values(|it: Item| it@),
            selected: self.items.sel(),
            mode: self.input_mode,
            buffer: self.editor.buffer@,
            popup: self.show_popup,
        }
    }
}

impl App {
    /// The selection is in range, the cached display width matches the
    /// buffer, and the popup is visible exactly while the mode is
    /// `Editing`.
    pub open spec fn wf(&self) -> bool {
        &&& self.items.wf()
        &&& self.editor.wf()
        &&& (self.show_popup <==> self.input_mode == InputMode::Editing)
    }

    /// Creates the application: empty list, `Normal` mode, empty buffer,
    /// popup hidden.
    pub fn new() -> (app: App)
        ensures
            app.wf(),
            app@.items == Seq::<ItemModel>::empty(),
            app@.selected == Option::<int>::None,
            app@.mode == InputMode::Normal,
            app@.buffer == Seq::<char>::empty(),
            app@.popup == false,
    {
        let app = App {
            items: CyclicSelectionList::with_items(Vec::new()),
            input_mode: InputMode::Normal,
            editor: PopupEditor::new(),
            show_popup: false,
        };
        proof {
            assert(app@.items =~= Seq::<ItemModel>::empty());
        }
        app
    }

    /// The cached display width of the popup buffer.
    pub fn input_width(&self) -> (w: usize)
        ensures
            w == self.editor.display_width,
    {
        self.editor.display_width
    }

    /// Applies one key event to the application state, exactly as `step`
    /// describes, and reports whether the event loop should terminate.
    /// Well-formedness — in particular that the popup is visible if and
    /// only if the mode is `Editing` — is preserved by every transition.
    pub fn handle_key(&mut self, code: KeyCode, mods: KeyModifier) -> (quit: bool)
        requires
            old(self).wf(),
            old(self).editor.buffer@.len() < usize::MAX,
        ensures
            final(self).wf(),
            final(self)@ =~= step(old(self)@, code, mods),
            quit == step_quits(old(self)@, code, mods),
    {
        let ghost pre = self@;
        match self.input_mode {
            InputMode::Normal => {
                match (code, mods) {
                    (KeyCode::Char(c), KeyModifier::Unmodified) => {
                        if c == 'p' {
                            self.show_popup = true;
                            self.input_mode = InputMode::Editing;
                        }
                        false
                    },
                    (KeyCode::Esc, KeyModifier::Unmodified) => true,
                    (KeyCode::Left, _) => {
                        self.items.unselect();
                        false
                    },
                    (KeyCode::Down, _) => {
                        self.items.next();
                        false
                    },
                    (KeyCode::Up, _) => {
                        self.items.previous();
                        false
                    },
                    _ => false,
                }
            },
            InputMode::Editing => {
                match (code, mods) {
                    (KeyCode::Enter, KeyModifier::Unmodified) => {
                        self.show_popup = false;
                        let item = self.editor.commit();
                        self.items.append(item);
                        self.input_mode = InputMode::Normal;
                        proof {
                            assert(self@.items =~= step(pre, code, mods).items);
                        }
                        false
                    },
                    (KeyCode::Char(c), _) => {
                        if self.show_popup {
                            self.editor.insert_char(c);
                        }
                        false
                    },
                    (KeyCode::Backspace, KeyModifier::Unmodified) => {
                        if self.show_popup {
                            self.editor.backspace();
                        }
                        false
                    },
                    (KeyCode::Esc, KeyModifier::Unmodified) => {
                        if self.show_popup {
                            self.editor.discard();
                            self.input_mode = InputMode::Normal;
                            self.show_popup = false;
                        }
                        false
                    },
                    _ => false,
                }
            },
        }
    }
}

} // verus!
