//! The wallet-address entry flow of the operator console.
//!
//! Only the decisions live here: which state the flow is in, what each key
//! press does to it, and which actions it asks the surrounding program to
//! perform. Drawing the popup and reading raw terminal events stay outside;
//! the driver hands key presses in and performs the returned actions. The
//! text cursor always sits at the end of the entry field, so a key press
//! either appends one character or removes the last one.

use vstd::prelude::*;
use crate::numerals::is_dec_digit;

verus! {

/// The screens the flow can stand on or return to.
#[derive(Clone, Copy, Debug, PartialEq, Eq, Structural)]
pub enum Scene {
    Status,
    Options,
    StatusBetaProgrammePopUp,
    OptionsBetaProgrammePopUp,
}

/// Whether the surrounding program routes key presses to this flow.
#[derive(Clone, Copy, Debug, PartialEq, Eq, Structural)]
pub enum InputMode {
    Navigation,
    Entry,
}

/// The key presses this flow reacts to.
#[derive(Clone, Copy, Debug, PartialEq, Eq, Structural)]
pub enum KeyPress {
    Enter,
    Esc,
    Backspace,
    Char(char),
}

/// Option-screen actions the flow can request.
#[derive(Clone, Debug, PartialEq, Eq)]
pub enum OptionsActions {
    UpdateBetaProgrammeUsername(String),
}

/// Actions the flow hands back to the surrounding program.
#[derive(Clone, Debug, PartialEq, Eq)]
pub enum Action {
    StoreDiscordUserName(String),
    OptionsActions(OptionsActions),
    SwitchScene(Scene),
    SwitchInputMode(InputMode),
}

/// The mathematical value of an action.
#[verifier::ext_equal]
pub enum ActionModel {
    StoreDiscordUserName(Seq<char>),
    UpdateBetaProgrammeUsername(Seq<char>),
    SwitchScene(Scene),
    SwitchInputMode(InputMode),
}

impl DeepView for Action {
    type V = ActionModel;

    open spec fn deep_view(&self) -> ActionModel {
        match self {
            Action::StoreDiscordUserName(s) => ActionModel::StoreDiscordUserName(s@),
            Action::OptionsActions(OptionsActions::UpdateBetaProgrammeUsername(s)) => (
            ActionModel::UpdateBetaProgrammeUsername(s@)),
            Action::SwitchScene(scene) => ActionModel::SwitchScene(*scene),
            Action::SwitchInputMode(mode) => ActionModel::SwitchInputMode(*mode),
        }
    }
}

/// Where the flow stands.
#[derive(Clone, Copy, Debug, PartialEq, Eq, Structural)]
pub enum BetaProgrammeState {
    DiscordIdAlreadySet,
    ShowTCs,
    RejectTCs,
    AcceptTCsAndEnterDiscordId,
}

/// The wallet-address entry flow.
pub struct BetaProgramme {
    active: bool,
    state: BetaProgrammeState,
    discord_input_field: Vec<char>,
    old_value: Vec<char>,
    back_to: Scene,
    can_save: bool,
}

/// The mathematical value of the flow.
#[verifier::ext_equal]
pub struct BetaProgrammeModel {
    pub active: bool,
    pub state: BetaProgrammeState,
    pub input: Seq<char>,
    pub old_value: Seq<char>,
    pub back_to: Scene,
    pub can_save: bool,
}

impl View for BetaProgramme {
    type V = BetaProgrammeModel;

    closed spec fn view(&self) -> BetaProgrammeModel {
        BetaProgrammeModel {
            active: self.active,
            state: self.state,
            input: self.discord_input_field@,
            old_value: self.old_value@,
            back_to: self.back_to,
            can_save: self.can_save,
        }
    }
}

/// Is `c` a hexadecimal digit, either case?
pub open spec fn is_hex_digit(c: char) -> bool {
    is_dec_digit(c) || (65 <= c as int <= 70) || (97 <= c as int <= 102)
}

/// A wallet address: the two-character `0x` prefix followed by exactly forty
/// hexadecimal digits.
pub open spec fn valid_wallet_address(s: Seq<char>) -> bool {
    &&& s.len() == 42
    &&& s[0] == '0'
    &&& s[1] == 'x'
    &&& (forall|i: int| 2 <= i < 42 ==> is_hex_digit(#[trigger] s[i]))
}

/// An upper-case hexadecimal digit folded to lower case; everything else
/// kept.
pub open spec fn lower_hex_char(c: char) -> char {
    if c == 'A' {
        'a'
    } else if c == 'B' {
        'b'
    } else if c == 'C' {
        'c'
    } else if c == 'D' {
        'd'
    } else if c == 'E' {
        'e'
    } else if c == 'F' {
        'f'
    } else {
        c
    }
}

/// The address folded to lower case, character by character.
pub open spec fn lower_hex(s: Seq<char>) -> Seq<char> {
    s.map_values(|c: char| lower_hex_char(c))
}

/// What one key press does while the entry field is captured: the state and
/// field afterwards, and the actions sent back.
pub open spec fn capture_step(m: BetaProgrammeModel, key: KeyPress) -> (
    BetaProgrammeModel,
    Seq<ActionModel>,
) {
    match key {
        KeyPress::Enter => {
            if valid_wallet_address(m.input) {
                let saved = lower_hex(m.input);
                (
                    BetaProgrammeModel {
                        state: BetaProgrammeState::DiscordIdAlreadySet,
                        input: saved,
                        can_save: true,
                        ..m
                    },
                    seq![
                        ActionModel::StoreDiscordUserName(saved),
                        ActionModel::UpdateBetaProgrammeUsername(saved),
                        ActionModel::SwitchScene(Scene::Status),
                    ],
                )
            } else {
                (BetaProgrammeModel { can_save: false, ..m }, Seq::empty())
            }
        },
        KeyPress::Esc => (
            BetaProgrammeModel { input: m.old_value, ..m },
            seq![ActionModel::SwitchScene(m.back_to)],
        ),
        KeyPress::Backspace => {
            let shorter = if m.input.len() > 0 {
                m.input.drop_last()
            } else {
                m.input
            };
            (
                BetaProgrammeModel {
                    input: shorter,
                    can_save: valid_wallet_address(shorter),
                    ..m
                },
                Seq::empty(),
            )
        },
        KeyPress::Char(c) => {
            if c == ' ' {
                (m, Seq::empty())
            } else if m.input.len() < 42 {
                let longer = m.input.push(c);
                (
                    BetaProgrammeModel {
                        input: longer,
                        can_save: valid_wallet_address(longer),
                        ..m
                    },
                    Seq::empty(),
                )
            } else {
                (m, Seq::empty())
            }
        },
    }
}

/// What one key press does to the whole flow.
pub open spec fn key_step(m: BetaProgrammeModel, key: KeyPress) -> (
    BetaProgrammeModel,
    Seq<ActionModel>,
) {
    if !m.active {
        (m, Seq::empty())
    } else {
        match m.state {
            BetaProgrammeState::DiscordIdAlreadySet => capture_step(m, key),
            BetaProgrammeState::AcceptTCsAndEnterDiscordId => capture_step(m, key),
            BetaProgrammeState::ShowTCs => {
                if key == KeyPress::Char('y') || key == KeyPress::Char('Y') {
                    let next = if m.input.len() > 0 {
                        BetaProgrammeState::DiscordIdAlreadySet
                    } else {
                        BetaProgrammeState::AcceptTCsAndEnterDiscordId
                    };
                    (BetaProgrammeModel { state: next, ..m }, Seq::empty())
                } else if key == KeyPress::Esc {
                    (m, seq![ActionModel::SwitchScene(m.back_to)])
                } else {
                    (m, Seq::empty())
                }
            },
            BetaProgrammeState::RejectTCs => {
                let next = if key == KeyPress::Esc {
                    BetaProgrammeState::ShowTCs
                } else {
                    m.state
                };
                (
                    BetaProgrammeModel { state: next, ..m },
                    seq![ActionModel::SwitchScene(m.back_to)],
                )
            },
        }
    }
}

/// What one incoming action does to the flow: entering one of the two popup
/// scenes activates it, remembers the value to restore on cancel and asks for
/// entry input mode; every other scene deactivates it.
pub open spec fn update_step(m: BetaProgrammeModel, action: ActionModel) -> (
    BetaProgrammeModel,
    Option<ActionModel>,
) {
    match action {
        ActionModel::SwitchScene(scene) => {
            if scene == Scene::StatusBetaProgrammePopUp || scene
                == Scene::OptionsBetaProgrammePopUp {
                let back_to = if scene == Scene::StatusBetaProgrammePopUp {
                    Scene::Status
                } else {
                    Scene::Options
                };
                (
                    BetaProgrammeModel { active: true, old_value: m.input, back_to, ..m },
                    Some(ActionModel::SwitchInputMode(InputMode::Entry)),
                )
            } else {
                (BetaProgrammeModel { active: false, ..m }, None)
            }
        },
        _ => (m, None),
    }
}

fn str_to_chars(s: &str) -> (r: Vec<char>)
    ensures
        r@ == s@,
{
    let len = s.unicode_len();
    let mut r: Vec<char> = Vec::new();
    let mut i: usize = 0;
    while i < len
        invariant
            0 <= i <= len,
            len == s@.len(),
            r@ == s@.take(i as int),
        decreases len - i,
    {
        r.push(s.get_char(i));
        proof {
            assert(r@ =~= s@.take(i as int + 1));
        }
        i += 1;
    }
    proof {
        assert(s@.take(len as int) =~= s@);
    }
    r
}

fn clone_chars(chars: &Vec<char>) -> (r: Vec<char>)
    ensures
        r@ == chars@,
{
    let mut r: Vec<char> = Vec::new();
    let n = chars.len();
    let mut i: usize = 0;
    while i < n
        invariant
            0 <= i <= n,
            n == chars@.len(),
            r@ == chars@.take(i as int),
        decreases n - i,
    {
        r.push(chars[i]);
        proof {
            assert(r@ =~= chars@.take(i as int + 1));
        }
        i += 1;
    }
    proof {
        assert(chars@.take(n as int) =~= chars@);
    }
    r
}

fn check_wallet_address(chars: &Vec<char>) -> (r: bool)
    ensures
        r == valid_wallet_address(chars@),
{
    if chars.len() != 42 {
        return false;
    }
    if chars[0] != '0' || chars[1] != 'x' {
        return false;
    }
    let mut i: usize = 2;
    while i < 42
        invariant
            2 <= i <= 42,
            chars@.len() == 42,
            forall|j: int| 2 <= j < i ==> is_hex_digit(#[trigger] chars@[j]),
        decreases 42 - i,
    {
        let c = chars[i];
        let digit = c >= '0' && c <= '9';
        let upper = c >= 'A' && c <= 'F';
        let lower = c >= 'a' && c <= 'f';
        if !digit && !upper && !lower {
            return false;
        }
        proof {
            assert(is_hex_digit(chars@[i as int]));
        }
        i += 1;
    }
    true
}

/// The lower-case text of one wallet-address character.
fn lower_char_str(c: char) -> (r: &'static str)
    requires
        is_hex_digit(c) || c == 'x',
    ensures
        r@ == seq![lower_hex_char(c)],
{
    proof {
        reveal_strlit("0");
        reveal_strlit("1");
        reveal_strlit("2");
        reveal_strlit("3");
        reveal_strlit("4");
        reveal_strlit("5");
        reveal_strlit("6");
        reveal_strlit("7");
        reveal_strlit("8");
        reveal_strlit("9");
        reveal_strlit("a");
        reveal_strlit("b");
        reveal_strlit("c");
        reveal_strlit("d");
        reveal_strlit("e");
        reveal_strlit("f");
        reveal_strlit("x");
    }
    match c {
        '0' => "0",
        '1' => "1",
        '2' => "2",
        '3' => "3",
        '4' => "4",
        '5' => "5",
        '6' => "6",
        '7' => "7",
        '8' => "8",
        '9' => "9",
        'a' => "a",
        'b' => "b",
        'c' => "c",
        'd' => "d",
        'e' => "e",
        'f' => "f",
        'A' => "a",
        'B' => "b",
        'C' => "c",
        'D' => "d",
        'E' => "e",
        'F' => "f",
        _ => "x",
    }
}

/// The stored form of a just-validated address: every character folded to
/// lower case.
fn lower_hex_string(chars: &Vec<char>) -> (r: String)
    requires
        valid_wallet_address(chars@),
    ensures
        r@ == lower_hex(chars@),
{
    let mut r = String::new();
    let n = chars.len();
    let mut i: usize = 0;
    while i < n
        invariant
            0 <= i <= n,
            n == chars@.len(),
            valid_wallet_address(chars@),
            r@ == lower_hex(chars@.take(i as int)),
        decreases n - i,
    {
        let c = chars[i];
        proof {
            assert(chars@[i as int] == c);
        }
        let piece = lower_char_str(c);
        r.append(piece);
        proof {
            assert(r@ =~= lower_hex(chars@.take(i as int + 1)));
        }
        i += 1;
    }
    proof {
        assert(chars@.take(n as int) =~= chars@);
        assert(lower_hex(chars@.take(n as int)) =~= lower_hex(chars@));
    }
    r
}

impl BetaProgramme {
    /// A fresh flow: inactive, holding the given stored address, showing the
    /// terms screen when no address is stored yet.
    pub fn new(username: String) -> (r: BetaProgramme)
        ensures
            r@ == (BetaProgrammeModel {
                active: false,
                state: if username@.len() == 0 {
                    BetaProgrammeState::ShowTCs
                } else {
                    BetaProgrammeState::DiscordIdAlreadySet
                },
                input: username@,
                old_value: Seq::empty(),
                back_to: Scene::Status,
                can_save: false,
            }),
    {
        let state = if username.as_str().unicode_len() == 0 {
            BetaProgrammeState::ShowTCs
        } else {
            BetaProgrammeState::DiscordIdAlreadySet
        };
        let r = BetaProgramme {
            active: false,
            state,
            discord_input_field: str_to_chars(username.as_str()),
            old_value: Vec::new(),
            back_to: Scene::Status,
            can_save: false,
        };
        proof {
            assert(r@ =~= (BetaProgrammeModel {
                active: false,
                state: if username@.len() == 0 {
                    BetaProgrammeState::ShowTCs
                } else {
                    BetaProgrammeState::DiscordIdAlreadySet
                },
                input: username@,
                old_value: Seq::empty(),
                back_to: Scene::Status,
                can_save: false,
            }));
        }
        r
    }

    /// Re-checks whether the entry field holds a saveable wallet address.
    pub fn validate(&mut self)
        ensures
            final(self)@ == (BetaProgrammeModel {
                can_save: valid_wallet_address(old(self)@.input),
                ..old(self)@
            }),
    {
        self.can_save = check_wallet_address(&self.discord_input_field);
    }

    /// Handles one key press while the entry field is captured.
    fn capture_inputs(&mut self, key: KeyPress) -> (actions: Vec<Action>)
        ensures
            final(self)@ == capture_step(old(self)@, key).0,
            actions.deep_view() == capture_step(old(self)@, key).1,
    {
        let mut actions: Vec<Action> = Vec::new();
        match key {
            KeyPress::Enter => {
                self.validate();
                if self.can_save {
                    let username = lower_hex_string(&self.discord_input_field);
                    self.discord_input_field = str_to_chars(username.as_str());
                    self.state = BetaProgrammeState::DiscordIdAlreadySet;
                    actions.push(Action::StoreDiscordUserName(username.clone()));
                    actions.push(
                        Action::OptionsActions(
                            OptionsActions::UpdateBetaProgrammeUsername(username),
                        ),
                    );
                    actions.push(Action::SwitchScene(Scene::Status));
                    proof {
                        assert(self@ =~= capture_step(old(self)@, key).0);
                        assert(actions.deep_view() =~= capture_step(old(self)@, key).1);
                    }
                } else {
                    proof {
                        assert(actions.deep_view() =~= Seq::<ActionModel>::empty());
                    }
                }
            },
            KeyPress::Esc => {
                self.discord_input_field = clone_chars(&self.old_value);
                actions.push(Action::SwitchScene(self.back_to));
                proof {
                    assert(self@ =~= capture_step(old(self)@, key).0);
                    assert(actions.deep_view() =~= capture_step(old(self)@, key).1);
                }
            },
            KeyPress::Backspace => {
                if self.discord_input_field.len() > 0 {
                    self.discord_input_field.pop();
                }
                self.validate();
                proof {
                    assert(self@ =~= capture_step(old(self)@, key).0);
                    assert(actions.deep_view() =~= Seq::<ActionModel>::empty());
                }
            },
            KeyPress::Char(c) => {
                if c != ' ' && self.discord_input_field.len() < 42 {
                    self.discord_input_field.push(c);
                    self.validate();
                }
                proof {
                    assert(self@ =~= capture_step(old(self)@, key).0);
                    assert(actions.deep_view() =~= Seq::<ActionModel>::empty());
                }
            },
        }
        actions
    }

    /// Handles one key press: ignored while inactive, routed by the current
    /// screen otherwise.
    pub fn handle_key_events(&mut self, key: KeyPress) -> (actions: Vec<Action>)
        ensures
            final(self)@ == key_step(old(self)@, key).0,
            actions.deep_view() == key_step(old(self)@, key).1,
    {
        if !self.active {
            let actions: Vec<Action> = Vec::new();
            proof {
                assert(actions.deep_view() =~= Seq::<ActionModel>::empty());
            }
            return actions;
        }
        match self.state {
            BetaProgrammeState::DiscordIdAlreadySet => self.capture_inputs(key),
            BetaProgrammeState::AcceptTCsAndEnterDiscordId => self.capture_inputs(key),
            BetaProgrammeState::ShowTCs => {
                let mut actions: Vec<Action> = Vec::new();
                match key {
                    KeyPress::Char(c) => {
                        if c == 'y' || c == 'Y' {
                            if self.discord_input_field.len() > 0 {
                                self.state = BetaProgrammeState::DiscordIdAlreadySet;
                            } else {
                                self.state = BetaProgrammeState::AcceptTCsAndEnterDiscordId;
                            }
                        }
                    },
                    KeyPress::Esc => {
                        actions.push(Action::SwitchScene(self.back_to));
                    },
                    _ => {},
                }
                proof {
                    assert(self@ =~= key_step(old(self)@, key).0);
                    assert(actions.deep_view() =~= key_step(old(self)@, key).1);
                }
                actions
            },
            BetaProgrammeState::RejectTCs => {
                let mut actions: Vec<Action> = Vec::new();
                if let KeyPress::Esc = key {
                    self.state = BetaProgrammeState::ShowTCs;
                }
                actions.push(Action::SwitchScene(self.back_to));
                proof {
                    assert(self@ =~= key_step(old(self)@, key).0);
                    assert(actions.deep_view() =~= key_step(old(self)@, key).1);
                }
                actions
            },
        }
    }

    /// Handles one incoming action.
    pub fn update(&mut self, action: Action) -> (reply: Option<Action>)
        ensures
            final(self)@ == update_step(old(self)@, action.deep_view()).0,
            reply.deep_view() == update_step(old(self)@, action.deep_view()).1,
    {
        match &action {
            Action::SwitchScene(scene) => {
                match scene {
                    Scene::StatusBetaProgrammePopUp => {
                        self.active = true;
                        self.old_value = clone_chars(&self.discord_input_field);
                        self.back_to = Scene::Status;
                        Some(Action::SwitchInputMode(InputMode::Entry))
                    },
                    Scene::OptionsBetaProgrammePopUp => {
                        self.active = true;
                        self.old_value = clone_chars(&self.discord_input_field);
                        self.back_to = Scene::Options;
                        Some(Action::SwitchInputMode(InputMode::Entry))
                    },
                    _ => {
                        self.active = false;
                        None
                    },
                }
            },
            _ => None,
        }
    }

    /// The current entry field text, oldest character first.
    pub fn value_chars(&self) -> (r: &Vec<char>)
        ensures
            r@ == self@.input,
    {
        &self.discord_input_field
    }

    /// Whether the current entry would be saved.
    pub fn can_save(&self) -> (r: bool)
        ensures
            r == self@.can_save,
    {
        self.can_save
    }
}

} // verus!
