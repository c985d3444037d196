//! Routing of menu events to the handlers of the application.
//!
//! The host reports the activation of a menu entry by the entry's identifier.
//! The router looks the identifier up in a closed table: a known identifier
//! names its handler, every other one is passed over in silence.

use vstd::prelude::*;
use vstd::string::StringSliceAdditionalSpecFns;
use vstd::utf8::encode_utf8_decode_utf8;
use crate::menu::{about_id, app_menu, has_action, lemma_app_menu_actions};

verus! {

/// The activation of a menu entry, as the host reports it.
#[derive(Clone, Debug, PartialEq, Eq)]
pub struct MenuEvent {
    pub id: String,
}

/// What an identifier asks the application to do.
#[derive(Clone, Copy, Debug, PartialEq, Eq, Structural)]
pub enum MenuCommand {
    /// Open the About dialog.
    About,
    /// Nothing: the identifier is not one of the application's own.
    Unrecognized,
}

/// The command that the identifier `id` stands for.
pub open spec fn command_of(id: Seq<char>) -> MenuCommand {
    if id == about_id() {
        MenuCommand::About
    } else {
        MenuCommand::Unrecognized
    }
}

/// The line that the handler of `command` leaves in the log. The About dialog
/// is not built yet: until it is, its handler is known by this line.
pub open spec fn notice_of(command: MenuCommand) -> Option<Seq<char>> {
    match command {
        MenuCommand::About => Some("About Sumo clicked"@),
        MenuCommand::Unrecognized => None,
    }
}

impl MenuCommand {
    /// What the handler of this command writes to the log: one line for the
    /// About entry, nothing where the identifier was not recognized.
    pub fn notice(self) -> (notice: Option<&'static str>)
        ensures
            match notice {
                Some(line) => notice_of(self) == Some(line@),
                None => notice_of(self) is None,
            },
    {
        match self {
            MenuCommand::About => Some("About Sumo clicked"),
            MenuCommand::Unrecognized => None,
        }
    }
}

/// The router and the menu agree: an identifier names a command exactly if the
/// application menu holds an entry of the application's own under it.
pub proof fn lemma_router_knows_menu_actions(id: Seq<char>)
    ensures
        command_of(id) != MenuCommand::Unrecognized <==> has_action(app_menu(), id),
{
    lemma_app_menu_actions(id);
}

/// Tells whether two strings hold the same characters.
pub fn same_text(a: &str, b: &str) -> (same: bool)
    ensures
        same == (a@ == b@),
{
    let x = a.as_bytes();
    let y = b.as_bytes();
    proof {
        encode_utf8_decode_utf8(a@);
        encode_utf8_decode_utf8(b@);
    }
    if x.len() != y.len() {
        return false;
    }
    let mut i: usize = 0;
    while i < x.len()
        invariant
            i <= x.len(),
            x.len() == y.len(),
            x@ == a.spec_bytes(),
            y@ == b.spec_bytes(),
            forall|j: int| 0 <= j < i ==> x@[j] == y@[j],
        decreases x.len() - i,
    {
        if x[i] != y[i] {
            return false;
        }
        i += 1;
    }
    assert(x@ =~= y@);
    true
}

/// Looks an identifier up in the table of the application's commands.
pub fn resolve(id: &str) -> (command: MenuCommand)
    ensures
        command == command_of(id@),
{
    if same_text(id, "about_sumo") {
        MenuCommand::About
    } else {
        MenuCommand::Unrecognized
    }
}

/// Routes one menu event. The event of the About entry yields
/// [`MenuCommand::About`], once per event; any other event yields
/// [`MenuCommand::Unrecognized`], on which the caller does nothing.
pub fn on_menu_event(event: &MenuEvent) -> (command: MenuCommand)
    ensures
        command == command_of(event.id@),
{
    resolve(event.id.as_str())
}

} // verus!
