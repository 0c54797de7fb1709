//! The rename domain: its closed tagged union of actions, the codec between
//! wire bare types and typed variants, and the handler's transition logic.
//! Wire bare types use lowerCamelCase and form a closed enumeration; the
//! mapping is stable, as front-end reducers match on it.

use vstd::prelude::*;
use crate::envelope::{DecodeError, Payload, PayloadModel};
use crate::handler::ActionHandler;

verus! {

/// The payload DTO of the rename actions: the name to change to.
#[derive(Clone, PartialEq, Eq, Debug)]
pub struct EditNameDto {
    pub new_name: String,
}

impl View for EditNameDto {
    type V = Seq<char>;

    open spec fn view(&self) -> Seq<char> {
        self.new_name@
    }
}

/// The rename domain's closed tagged union. Requests: a name change and its
/// cancellation. Responses: the change applied, the change canceled, and the
/// explicit error variant for any request with no defined transition.
#[derive(Clone, PartialEq, Eq, Debug)]
pub enum RenameAction {
    ChangeClassifierName(EditNameDto),
    CancelNameChange,
    NameChanged(EditNameDto),
    NameChangeCanceled(EditNameDto),
    NameChangedError,
}

/// The mathematical model of a rename action.
pub enum RenameActionModel {
    ChangeClassifierName(Seq<char>),
    CancelNameChange,
    NameChanged(Seq<char>),
    NameChangeCanceled(Seq<char>),
    NameChangedError,
}

impl View for RenameAction {
    type V = RenameActionModel;

    open spec fn view(&self) -> RenameActionModel {
        match self {
            RenameAction::ChangeClassifierName(d) => RenameActionModel::ChangeClassifierName(d@),
            RenameAction::CancelNameChange => RenameActionModel::CancelNameChange,
            RenameAction::NameChanged(d) => RenameActionModel::NameChanged(d@),
            RenameAction::NameChangeCanceled(d) => RenameActionModel::NameChangeCanceled(d@),
            RenameAction::NameChangedError => RenameActionModel::NameChangedError,
        }
    }
}

/// The domain identifier the rename handler is registered under.
pub open spec fn rename_domain() -> Seq<char> {
    "rename"@
}

/// Which variant a bare type and payload decode into: the bare type selects
/// the variant, the payload must match the shape that variant carries (a
/// `newName` object for the carrying variants, absent for the unit ones).
pub open spec fn spec_decode_action(bare: Seq<char>, payload: PayloadModel) -> Result<
    RenameActionModel,
    DecodeError,
> {
    if bare == "changeClassifierName"@ {
        match payload {
            PayloadModel::NewName(n) => Ok(RenameActionModel::ChangeClassifierName(n)),
            _ => Err(DecodeError::PayloadMismatch),
        }
    } else if bare == "cancelNameChange"@ {
        match payload {
            PayloadModel::Absent => Ok(RenameActionModel::CancelNameChange),
            _ => Err(DecodeError::PayloadMismatch),
        }
    } else if bare == "nameChanged"@ {
        match payload {
            PayloadModel::NewName(n) => Ok(RenameActionModel::NameChanged(n)),
            _ => Err(DecodeError::PayloadMismatch),
        }
    } else if bare == "nameChangeCanceled"@ {
        match payload {
            PayloadModel::NewName(n) => Ok(RenameActionModel::NameChangeCanceled(n)),
            _ => Err(DecodeError::PayloadMismatch),
        }
    } else if bare == "nameChangedError"@ {
        match payload {
            PayloadModel::Absent => Ok(RenameActionModel::NameChangedError),
            _ => Err(DecodeError::PayloadMismatch),
        }
    } else {
        Err(DecodeError::UnknownType)
    }
}

/// How each variant serializes back to a bare type and payload; a variant
/// with no payload serializes with the payload absent, not as an empty
/// object placeholder.
pub open spec fn spec_encode_action(a: RenameActionModel) -> (Seq<char>, PayloadModel) {
    match a {
        RenameActionModel::ChangeClassifierName(n) => (
            "changeClassifierName"@,
            PayloadModel::NewName(n),
        ),
        RenameActionModel::CancelNameChange => ("cancelNameChange"@, PayloadModel::Absent),
        RenameActionModel::NameChanged(n) => ("nameChanged"@, PayloadModel::NewName(n)),
        RenameActionModel::NameChangeCanceled(n) => (
            "nameChangeCanceled"@,
            PayloadModel::NewName(n),
        ),
        RenameActionModel::NameChangedError => ("nameChangedError"@, PayloadModel::Absent),
    }
}

/// The rename state machine: a name change yields the changed response with
/// the same name, a cancellation yields the canceled response carrying the
/// previous (here: default) name, and any other variant has no defined
/// transition and falls through to the explicit error variant.
pub open spec fn spec_handle(a: RenameActionModel) -> RenameActionModel {
    match a {
        RenameActionModel::ChangeClassifierName(n) => RenameActionModel::NameChanged(n),
        RenameActionModel::CancelNameChange => RenameActionModel::NameChangeCanceled(
            "Old Classname"@,
        ),
        _ => RenameActionModel::NameChangedError,
    }
}

/// String equality with the view-level meaning in its contract.
fn str_eq(a: &str, b: &str) -> (r: bool)
    ensures
        r == (a@ == b@),
{
    let x = a.to_owned();
    let y = b.to_owned();
    x == y
}

/// The rename domain's service: stateless between calls; the persisted name
/// lives behind the external collaborator.
pub struct ClassifierService {}

impl ClassifierService {
    /// The external persistence collaborator's seam: storing the new name is
    /// delegated and outside this library, which calls it and does not
    /// interpret its outcome.
    pub fn update_classifier_name(&self, new_name: &str) {
        let _ = new_name;
    }

    /// Interprets a bare type and payload as a member of the rename union.
    /// Fails with `UnknownType` when the bare type names no variant, and
    /// with `PayloadMismatch` when the payload's shape does not fit the
    /// named variant.
    pub fn to_typed_action(&self, bare: &str, payload: &Payload) -> (r: Result<
        RenameAction,
        DecodeError,
    >)
        ensures
            match r {
                Ok(a) => spec_decode_action(bare@, payload@) == Ok::<
                    RenameActionModel,
                    DecodeError,
                >(a@),
                Err(e) => spec_decode_action(bare@, payload@) == Err::<
                    RenameActionModel,
                    DecodeError,
                >(e),
            },
    {
        if str_eq(bare, "changeClassifierName") {
            match payload {
                Payload::NewName(s) => Ok(
                    RenameAction::ChangeClassifierName(EditNameDto { new_name: s.clone() }),
                ),
                _ => Err(DecodeError::PayloadMismatch),
            }
        } else if str_eq(bare, "cancelNameChange") {
            match payload {
                Payload::Absent => Ok(RenameAction::CancelNameChange),
                _ => Err(DecodeError::PayloadMismatch),
            }
        } else if str_eq(bare, "nameChanged") {
            match payload {
                Payload::NewName(s) => Ok(
                    RenameAction::NameChanged(EditNameDto { new_name: s.clone() }),
                ),
                _ => Err(DecodeError::PayloadMismatch),
            }
        } else if str_eq(bare, "nameChangeCanceled") {
            match payload {
                Payload::NewName(s) => Ok(
                    RenameAction::NameChangeCanceled(EditNameDto { new_name: s.clone() }),
                ),
                _ => Err(DecodeError::PayloadMismatch),
            }
        } else if str_eq(bare, "nameChangedError") {
            match payload {
                Payload::Absent => Ok(RenameAction::NameChangedError),
                _ => Err(DecodeError::PayloadMismatch),
            }
        } else {
            Err(DecodeError::UnknownType)
        }
    }

    /// Serializes a variant back to its bare type and payload.
    pub fn from_typed_action(&self, action: RenameAction) -> (r: (String, Payload))
        ensures
            (r.0@, r.1@) == spec_encode_action(action@),
    {
        match action {
            RenameAction::ChangeClassifierName(d) => (
                "changeClassifierName".to_owned(),
                Payload::NewName(d.new_name),
            ),
            RenameAction::CancelNameChange => ("cancelNameChange".to_owned(), Payload::Absent),
            RenameAction::NameChanged(d) => ("nameChanged".to_owned(), Payload::NewName(d.new_name)),
            RenameAction::NameChangeCanceled(d) => (
                "nameChangeCanceled".to_owned(),
                Payload::NewName(d.new_name),
            ),
            RenameAction::NameChangedError => ("nameChangedError".to_owned(), Payload::Absent),
        }
    }

    /// Applies the rename transition: total over the union, returning the
    /// explicit error variant for every request with no defined transition,
    /// never panicking.
    pub fn handle_action(&self, action: RenameAction) -> (r: RenameAction)
        ensures
            r@ == spec_handle(action@),
    {
        match action {
            RenameAction::ChangeClassifierName(d) => {
                self.update_classifier_name(d.new_name.as_str());
                RenameAction::NameChanged(d)
            },
            RenameAction::CancelNameChange => RenameAction::NameChangeCanceled(
                EditNameDto { new_name: "Old Classname".to_owned() },
            ),
            _ => RenameAction::NameChangedError,
        }
    }
}

impl ActionHandler for ClassifierService {
    open spec fn spec_domain(&self) -> Seq<char> {
        rename_domain()
    }

    open spec fn spec_receive(&self, bare: Seq<char>, payload: PayloadModel) -> Option<
        (Seq<char>, PayloadModel),
    > {
        match spec_decode_action(bare, payload) {
            Ok(a) => Some(spec_encode_action(spec_handle(a))),
            Err(_) => None,
        }
    }

    fn domain(&self) -> (r: String) {
        "rename".to_owned()
    }

    fn receive_action(&self, bare: &str, payload: &Payload) -> (r: Option<(String, Payload)>) {
        match self.to_typed_action(bare, payload) {
            Ok(action) => {
                let response = self.handle_action(action);
                Some(self.from_typed_action(response))
            },
            Err(_) => None,
        }
    }
}

/// Law: every variant of the rename union round-trips through the codec:
/// decoding what a variant encodes to yields that variant back.
pub proof fn lemma_action_round_trip(a: RenameActionModel)
    ensures
        spec_decode_action(spec_encode_action(a).0, spec_encode_action(a).1) == Ok::<
            RenameActionModel,
            DecodeError,
        >(a),
{
    reveal_strlit("changeClassifierName");
    reveal_strlit("cancelNameChange");
    reveal_strlit("nameChanged");
    reveal_strlit("nameChangeCanceled");
    reveal_strlit("nameChangedError");
    assert("changeClassifierName"@.len() == 20);
    assert("cancelNameChange"@.len() == 16);
    assert("nameChanged"@.len() == 11);
    assert("nameChangeCanceled"@.len() == 18);
    assert("nameChangedError"@.len() == 16);
    assert("cancelNameChange"@[0] == 'c');
    assert("nameChangedError"@[0] == 'n');
    assert("cancelNameChange"@ != "nameChangedError"@);
}

} // verus!
