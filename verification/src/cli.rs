//! The dispatcher: from what the command line holds to the one action that
//! the run performs.

use vstd::prelude::*;
use crate::error::{ErrorModel, ShortcutError};
use crate::text::{trim, trimmed};

verus! {

/// What a run does.
#[derive(Debug, PartialEq, Eq)]
pub enum Intent {
    /// Download the bundle of pages and unpack it into the page directory.
    Update,
    /// List the names of the cached pages.
    List,
    /// Render the page of one program.
    Render { program_name: String, colour: bool },
}

/// An `Intent` with the program name as a sequence of characters.
pub enum IntentModel {
    Update,
    List,
    Render { program_name: Seq<char>, colour: bool },
}

impl View for Intent {
    type V = IntentModel;

    open spec fn view(&self) -> IntentModel {
        match self {
            Intent::Update => IntentModel::Update,
            Intent::List => IntentModel::List,
            Intent::Render { program_name, colour } => IntentModel::Render {
                program_name: program_name@,
                colour: *colour,
            },
        }
    }
}

impl Clone for Intent {
    fn clone(&self) -> (copy: Self)
        ensures
            copy@ == self@,
    {
        match self {
            Intent::Update => Intent::Update,
            Intent::List => Intent::List,
            Intent::Render { program_name, colour } => Intent::Render {
                program_name: program_name.clone(),
                colour: *colour,
            },
        }
    }
}

/// The action that a command line asks for. An update goes before a
/// listing, a listing before a page. A page needs a program name that is
/// not empty once the white space round it is gone; it is rendered in
/// colour unless colour was switched off.
pub open spec fn chosen_intent(
    program_name: Option<Seq<char>>,
    list: bool,
    update: bool,
    no_colour: bool,
) -> Result<IntentModel, ErrorModel> {
    if update {
        Ok(IntentModel::Update)
    } else if list {
        Ok(IntentModel::List)
    } else if program_name is Some && trimmed(program_name->0).len() > 0 {
        Ok(IntentModel::Render { program_name: trimmed(program_name->0), colour: !no_colour })
    } else {
        Err(ErrorModel::NoArgument)
    }
}

/// The program name of a command line as a sequence of characters.
pub open spec fn name_model(program_name: Option<String>) -> Option<Seq<char>> {
    match program_name {
        Some(name) => Some(name@),
        None => None,
    }
}

/// Maps what the command line holds to the action of the run.
pub fn dispatch(program_name: Option<String>, list: bool, update: bool, no_colour: bool) -> (r:
    Result<Intent, ShortcutError>)
    ensures
        match chosen_intent(name_model(program_name), list, update, no_colour) {
            Ok(intent) => r is Ok && r->Ok_0@ == intent,
            Err(error) => r is Err && r->Err_0@ == error,
        },
{
    if update {
        return Ok(Intent::Update);
    }
    if list {
        return Ok(Intent::List);
    }
    match program_name {
        Some(name) => {
            let clean = trim(name.as_str());
            if !clean.as_str().is_empty() {
                Ok(Intent::Render { program_name: clean, colour: !no_colour })
            } else {
                Err(ShortcutError::NoArgument)
            }
        },
        None => Err(ShortcutError::NoArgument),
    }
}

} // verus!
