//! The fixed source text around the parts that each custom event adds.
use vstd::prelude::*;

verus! {

/// Support items every expansion starts with: imports, `run`, `Command`
/// and its execution, the keyboard reader and the debug-log impls.
pub const LIB_ITEMS: &'static str = r##"
use std::io::{StdoutLock, Write};
use std::os::fd::AsRawFd;

pub use ragout_assistant::init;
use ragout_assistant::{DebugLog, Writer};
use ragout_assistant::{History, Input};

pub fn run(
    input: &mut Input,
    history: &mut History,
    stdout: &mut std::io::StdoutLock<'static>,
    user_input: &mut String,
) -> String {
    let cmd = keyboard();
    cmd.execute(input, history, stdout, user_input);

    user_input.drain(..).collect::<String>()
}

enum Command {
    InputAction(InputAction),
    Exit(i32),
    None,
}

impl Command {
    fn execute(&self, i: &mut Input, h: &mut History, sol: &mut StdoutLock<'_>, ui: &mut String) {
        match self {
            Command::InputAction(ia) => i.write(h, ia, sol, ui),
            Command::Exit(code) => {
                if i.alt_screen {
                    _ = sol.write(b"\x1b[?1049l");
                }
                Command::exit(*code)
            }
            Command::None => (),
        }
    }

    fn exit(code: i32) {
        std::process::exit(code);
    }
}

use crossterm::event::{read as kbd_read, Event, KeyCode, KeyEvent, KeyModifiers};

fn keyboard() -> Command {
    match kbd_read() {
        Ok(Event::Key(key_event)) => kbd_event(key_event),
        Err(e) => {
            eprintln!("read error\n{:?}", e);
            Command::None
        }
        _ => Command::None,
    }
}

#[cfg(any(debug_assertions, feature = "debug_logs"))]
impl DebugLog<InputAction> for Input {
    fn log(&mut self, event: &InputAction) {
        self.debug_log
            .write_all(
                format!(
                    "[LOG::{:?} - {:?}] {{ values[{:?}] = '{:?}' }} - {:?}\r\n",
                    event,
                    std::process::Command::new("date")
                        .arg("+\"%H:%M:%S:%N\"")
                        .output()
                        .expect("couldnt get time from linux command 'date'")
                        .stdout
                        .into_iter()
                        .map(|u| u as char)
                        .collect::<String>()
                        .replacen("\"", "", 2)
                        .trim_end_matches("\n"),
                    if self.cursor == 0 {
                        None
                    } else {
                        Some(self.cursor - 1)
                    },
                    if self.values.is_empty() || self.cursor == 0 {
                        None
                    } else {
                        Some(self.values[self.cursor - 1])
                    },
                    self.values,
                )
                .as_bytes(),
            )
            .unwrap();
    }

    fn dl_rfd(&self) -> i32 {
        self.debug_log.as_raw_fd()
    }
}

#[cfg(any(debug_assertions, feature = "debug_logs"))]
impl DebugLog<InputAction> for History {
    fn log(&mut self, event: &InputAction) {
        self.debug_log
            .write_all(
                format!(
                    "[LOG::{:?} - {:?}] {{ values[{:?}] = '{:?}' }} - {:?} | temp = {:?}\r\n",
                    event,
                    std::process::Command::new("date")
                        .arg("+\"%H:%M:%S:%N\"")
                        .output()
                        .expect("couldnt get time from linux command 'date'")
                        .stdout
                        .into_iter()
                        .map(|u| u as char)
                        .collect::<String>()
                        .replacen("\"", "", 2)
                        .trim_end_matches("\n"),
                    if self.cursor == 0 {
                        None
                    } else {
                        Some(self.cursor - 1)
                    },
                    if self.values.is_empty() || self.cursor == 0 {
                        None
                    } else {
                        Some(self.values[self.cursor - 1].clone())
                    },
                    self.values,
                    self.temp
                )
                .as_bytes(),
            )
            .unwrap();
    }

    fn dl_rfd(&self) -> i32 {
        self.debug_log.as_raw_fd()
    }
}
"##;


/// Opening of the `InputAction` enum: its name and the built-in actions.
/// Each custom variant follows, with a comma after it.
pub const ENUM_HEAD: &'static str = r##"enum InputAction {
    PutChar(char),
    BackSpace,
    CRLF,
    MoveRight,
    MoveLeft,
    MoveEnd,
    MoveRightJump,
    MoveLeftJump,
    ClearLine,
    ClearRight,
    ClearLeft,
    MoveHome,
    HistoryPrev,
    HistoryNext,
"##;

/// Close of the `InputAction` enum.
pub const ENUM_TAIL: &'static str = "}";

/// What follows each entry of a comma-terminated list.
pub const LIST_SEP: &'static str = ",\n";

/// `kbd_event` up to its custom arms: the built-in key bindings.
pub const KBD_HEAD: &'static str = r##"fn kbd_event(key_event: KeyEvent) -> Command {
    match key_event.code {
        KeyCode::Enter if key_event.modifiers == KeyModifiers::from_bits(0x0).unwrap() => {
            Command::InputAction(InputAction::CRLF)
        }

        KeyCode::Backspace if key_event.modifiers == KeyModifiers::from_bits(0x0).unwrap() => {
            Command::InputAction(InputAction::BackSpace)
        }

        KeyCode::Backspace if key_event.modifiers == KeyModifiers::from_bits(0x4).unwrap() => {
            Command::InputAction(InputAction::ClearLine)
        }

        KeyCode::Up if key_event.modifiers == KeyModifiers::from_bits(0x0).unwrap() => {
            Command::InputAction(InputAction::HistoryPrev)
        }

        KeyCode::Down if key_event.modifiers == KeyModifiers::from_bits(0x0).unwrap() => {
            Command::InputAction(InputAction::HistoryNext)
        }

        KeyCode::Right if key_event.modifiers == KeyModifiers::from_bits(0x0).unwrap() => {
            Command::InputAction(InputAction::MoveRight)
        }

        KeyCode::Left if key_event.modifiers == KeyModifiers::from_bits(0x0).unwrap() => {
            Command::InputAction(InputAction::MoveLeft)
        }

        KeyCode::End if key_event.modifiers == KeyModifiers::from_bits(0x0).unwrap() => {
            Command::InputAction(InputAction::MoveEnd)
        }

        KeyCode::Home if key_event.modifiers == KeyModifiers::from_bits(0x0).unwrap() => {
            Command::InputAction(InputAction::MoveHome)
        }

        KeyCode::Right if key_event.modifiers == KeyModifiers::from_bits(0x4).unwrap() => {
            Command::InputAction(InputAction::MoveRightJump)
        }
        KeyCode::Left if key_event.modifiers == KeyModifiers::from_bits(0x4).unwrap() => {
            Command::InputAction(InputAction::MoveLeftJump)
        }
        KeyCode::Right if key_event.modifiers == KeyModifiers::from_bits(0x6).unwrap() => {
            Command::InputAction(InputAction::ClearRight)
        }

        KeyCode::Left if key_event.modifiers == KeyModifiers::from_bits(0x6).unwrap() => {
            Command::InputAction(InputAction::ClearLeft)
        }

        KeyCode::Char(c) => match c {
            'c' if key_event.modifiers == KeyModifiers::from_bits(0x2).unwrap() => Command::Exit(0),
            c if key_event.modifiers == KeyModifiers::from_bits(0x0).unwrap() => {
                Command::InputAction(InputAction::PutChar(c))
            }
            _ => Command::None,
        },

"##;

/// `kbd_event` after its custom arms: the catch-all arm and the closes.
pub const KBD_TAIL: &'static str = r##"
        _ => Command::None,
    }
}"##;

/// Between a custom arm's key pattern and its modifier bits.
pub const ARM_GUARD: &'static str = " if key_event.modifiers == KeyModifiers::from_bits(";

/// Between a custom arm's modifier bits and the action it produces.
pub const ARM_ACTION: &'static str = ").unwrap() => {\n            Command::InputAction(";

/// Close of a custom keyboard arm.
pub const ARM_END: &'static str = ")\n        }\n";

/// Opens the payload that a call key code hands to its variant.
pub const PAYLOAD_OPEN: &'static str = " (";

/// Closes a payload.
pub const PAYLOAD_CLOSE: &'static str = ")";

/// Path prefix of a custom action, where it is produced and where it is
/// matched.
pub const ACTION_PATH: &'static str = "InputAction::";

/// Binding of the payload in a `write` arm whose key code holds a bracket.
pub const WRITE_ARM_DATA: &'static str = " (val)";

/// Between a `write` arm's pattern and its closure.
pub const WRITE_ARM_BODY: &'static str = " => {\n            (";

/// Calls the closure and closes a `write` arm.
pub const WRITE_ARM_END: &'static str = ")()\n        }";

/// `Writer::write` up to its custom arms: the built-in actions.
pub const WRITE_HEAD: &'static str = r##"fn write(
    &mut self,
    h: &mut History,
    ia: &InputAction,
    sol: &mut StdoutLock<'_>,
    ui: &mut String,
) {
    match ia {
        InputAction::MoveRight => {
            if self.to_the_right() {
                _ = sol.write(b"\x1b[C");
            }
        }

        InputAction::MoveLeft => {
            if self.to_the_left() {
                _ = sol.write(b"\x1b[D");
            }
        }

        InputAction::BackSpace => {
            self.backspace();
            self.write_prompt(sol);
            self.sync_cursor(sol);
        }

        InputAction::ClearLine => {
            self.clear_line();
            self.write_prompt(sol);
        }

        InputAction::ClearRight => {
            self.clear_right();
            _ = sol.write(b"\x1b[0K");
            self.sync_cursor(sol);
        }

        InputAction::ClearLeft => {
            self.clear_left();
            self.write_prompt(sol);
            self.sync_cursor(sol);
        }

        InputAction::CRLF => {
            self.cr_lf(h, ui);
            #[cfg(debug_assertions)]
            h.log(&ia);
            _ = sol.write(&[13, 10]);
            self.write_prompt(sol);
        }

        InputAction::PutChar(c) => {
            self.put_char(*c);
            self.write_prompt(sol);
            self.sync_cursor(sol);
        }

        InputAction::MoveEnd => match self.to_end() {
            0 => (),
            val => {
                for _ in 0..val {
                    _ = sol.write(b"\x1b[C");
                }
            }
        },

        InputAction::MoveHome => {
            if self.to_home() {
                _ = sol.write(&[13]);
                for _ in 0..self.prompt.chars().count() + 1 {
                    _ = sol.write(b"\x1b[C");
                }
            }
        }

        InputAction::MoveRightJump => {
            self.to_right_jump();
            _ = sol.write(&[13]);
            self.sync_cursor(sol);
        }

        InputAction::MoveLeftJump => {
            self.to_left_jump();
            _ = sol.write(&[13]);
            self.sync_cursor(sol);
        }

        InputAction::HistoryPrev => {
            if h.prev(&mut self.values) {
                self.write_prompt(sol);
                self.cursor = self.values.len();
            }
            #[cfg(debug_assertions)]
            h.log(&ia);
        }

        InputAction::HistoryNext => {
            if h.next(&mut self.values) {
                self.write_prompt(sol);
                self.cursor = self.values.len();
            }
            #[cfg(debug_assertions)]
            h.log(&ia);
        }

"##;

/// `Writer::write` after its custom arms.
pub const WRITE_TAIL: &'static str = r##"
    }
    sol.flush();
    #[cfg(debug_assertions)]
    self.log(&ia);
}"##;

/// Between the support items and the `InputAction` enum.
pub const ENUM_ATTRS: &'static str = "\n\n#[derive(Debug)]\n";

/// Between the `InputAction` enum and `kbd_event`.
pub const ITEM_SEP: &'static str = "\n\n";

/// Opens the `Writer` impl that holds `write`.
pub const WRITER_IMPL_HEAD: &'static str = "\n\nimpl Writer<InputAction> for Input {\n";

/// Closes the `Writer` impl.
pub const WRITER_IMPL_TAIL: &'static str = "\n}\n";

} // verus!
