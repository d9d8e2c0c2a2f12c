//! The conversation engine: a per-session state machine. Each handler is a
//! pure decision step from the session's state and one input to the next
//! state, the prompt to show, and at most one command for the platform
//! adapter; the surrounding event loop performs the command and reports its
//! outcome back through the matching result handler.

use vstd::prelude::*;

use crate::naming::{pack_id_from_stem, pack_id_spec};
use crate::registry::{has_key, ids_for, without_key, PackRegistry, RegistryError, Row};

verus! {

/// The per-session conversation state. `Start` is the idle state; the other
/// three each await one further input and carry the pending asset.
#[derive(Clone, Debug, PartialEq)]
pub enum State {
    Start,
    AwaitingAction { file_id: String, is_sticker: bool },
    GetPackName { file_id: String, is_sticker: bool },
    AddingToPack { file_id: String, is_sticker: bool },
}

impl Default for State {
    fn default() -> (r: State)
        ensures
            r == State::Start,
    {
        State::Start
    }
}

/// What the session should be told next. Rendering the text is the
/// transport's concern; each variant carries exactly the data the message
/// needs.
#[derive(Clone, Debug, PartialEq)]
pub enum Prompt {
    /// Offer the choice between appending to an existing pack and creating a
    /// new one.
    ChooseAction,
    /// Ask for a name for the new pack.
    AskPackName,
    /// Tell the owner they have no packs yet and ask for a name for the
    /// first one.
    NoPacksAskPackName,
    /// Offer the owner's packs as append targets.
    ChooseTargetPack { packs: Vec<String> },
    /// The input was not one of the offered buttons; the session is aborted.
    UseButtons,
    /// The chosen name is already taken; ask for another one.
    NameTaken,
    /// The pack was created.
    PackCreated { generated_id: String },
    /// The platform refused to create the pack; the record was rolled back.
    CreateFailed,
    /// The sticker was appended.
    StickerAdded { generated_id: String },
    /// The platform refused the append; the session is aborted.
    AppendFailed,
    /// The target pack no longer exists; its record was removed and other
    /// packs remain to choose from.
    PackGoneChooseAction,
    /// The target pack no longer exists; its record was removed and none
    /// remain, so ask for a name for a new pack.
    PackGoneAskPackName,
    /// The asset could not be normalized.
    NormalizationFailed,
}

/// One call the event loop must make against the platform adapter. The asset
/// is normalized first unless it is already a platform sticker.
#[derive(Clone, Debug, PartialEq)]
pub enum Command {
    CreatePack {
        owner: i64,
        generated_id: String,
        display_name: String,
        file_id: String,
        is_sticker: bool,
    },
    AppendToPack { owner: i64, generated_id: String, file_id: String, is_sticker: bool },
}

/// How performing a command ended.
#[derive(Clone, Debug, PartialEq, Eq, Copy)]
pub enum AttemptOutcome {
    /// The adapter call succeeded.
    Success,
    /// The asset could not be normalized; no adapter call was made.
    NormalizationFailed,
    /// The adapter reported that the target pack no longer exists.
    StickerSetInvalid,
    /// Any other adapter failure.
    AdapterFailed,
}

/// The step taken on a text reply while a pack name is awaited.
pub enum TextStep {
    /// The input was not text: the session aborts.
    Abort { state: State, prompt: Prompt },
    /// A display name arrived; `stem` is its underscored form, which the
    /// event loop transliterates before registration.
    Name { name: String, stem: String },
}

/// The step taken once the transliterated stem of a requested pack name is
/// known.
pub enum NameStep {
    /// The derived identifier is already registered: stay on the same step
    /// and re-prompt.
    Conflict { state: State, prompt: Prompt },
    /// The record was written; the event loop must perform the command and
    /// report through `handle_create_result`.
    Launch { command: Command },
}

/// The step taken on a reply naming the append target.
pub enum TargetStep {
    /// The input was not text: the session aborts.
    Abort { state: State, prompt: Prompt },
    /// The event loop must perform the append and report through
    /// `handle_append_result`.
    Launch { command: Command },
}

/// A qualifying asset arrived: owners with at least one registered pack are
/// offered the choice step, owners without any go straight to naming a new
/// pack.
pub fn handle_media(reg: &PackRegistry, owner: i64, file_id: String, is_sticker: bool) -> (r: (
    State,
    Prompt,
))
    ensures
        ids_for(reg@, owner as int).len() > 0 ==> r == (
            State::AwaitingAction { file_id, is_sticker },
            Prompt::ChooseAction,
        ),
        ids_for(reg@, owner as int).len() == 0 ==> r == (
            State::GetPackName { file_id, is_sticker },
            Prompt::NoPacksAskPackName,
        ),
{
    if reg.has_packs(owner) {
        (State::AwaitingAction { file_id, is_sticker }, Prompt::ChooseAction)
    } else {
        (State::GetPackName { file_id, is_sticker }, Prompt::NoPacksAskPackName)
    }
}

/// The reply to the choice step: "add" leads to picking a target pack (or to
/// naming a new one when the list emptied meanwhile), "create" to naming a
/// new pack, and anything else aborts the session.
pub fn handle_action(
    reg: &PackRegistry,
    owner: i64,
    file_id: String,
    is_sticker: bool,
    text: Option<&String>,
) -> (r: (State, Prompt))
    ensures
        match text {
            Some(t) => {
                &&& (t@ == "add"@ && ids_for(reg@, owner as int).len() > 0) ==> (r.0
                    == State::AddingToPack { file_id, is_sticker } && (r.1 matches
                Prompt::ChooseTargetPack { packs } && packs.deep_view() == ids_for(
                    reg@,
                    owner as int,
                )))
                &&& (t@ == "add"@ && ids_for(reg@, owner as int).len() == 0) ==> r == (
                    State::GetPackName { file_id, is_sticker },
                    Prompt::NoPacksAskPackName,
                )
                &&& (t@ == "create"@) ==> r == (
                    State::GetPackName { file_id, is_sticker },
                    Prompt::AskPackName,
                )
                &&& (t@ != "add"@ && t@ != "create"@) ==> r == (State::Start, Prompt::UseButtons)
            },
            None => r == (State::Start, Prompt::UseButtons),
        },
{
    proof {
        reveal_strlit("add");
        reveal_strlit("create");
        assert("add"@.len() == 3);
        assert("create"@.len() == 6);
    }
    match text {
        Some(t) => {
            let add = String::from_str("add");
            let create = String::from_str("create");
            if *t == add {
                let packs = reg.list_packs(owner);
                proof {
                    assert(packs.deep_view().len() == packs@.len());
                }
                if packs.len() > 0 {
                    (
                        State::AddingToPack { file_id, is_sticker },
                        Prompt::ChooseTargetPack { packs },
                    )
                } else {
                    (State::GetPackName { file_id, is_sticker }, Prompt::NoPacksAskPackName)
                }
            } else if *t == create {
                (State::GetPackName { file_id, is_sticker }, Prompt::AskPackName)
            } else {
                (State::Start, Prompt::UseButtons)
            }
        },
        None => (State::Start, Prompt::UseButtons),
    }
}

/// The reply to the naming step: a missing text aborts the session, a name is
/// turned into its underscored stem for transliteration.
pub fn handle_pack_name_text(text: Option<String>) -> (r: TextStep)
    ensures
        match text {
            None => r matches TextStep::Abort { state, prompt } && state == State::Start && prompt
                == Prompt::UseButtons,
            Some(n) => r matches TextStep::Name { name, stem } && name == n && stem@
                == crate::naming::underscored_spec(n@),
        },
{
    match text {
        None => TextStep::Abort { state: State::Start, prompt: Prompt::UseButtons },
        Some(n) => {
            let stem = crate::naming::underscored(&n);
            TextStep::Name { name: n, stem }
        },
    }
}

/// The requested name's identifier is derived from the transliterated stem;
/// a clash with an existing key re-prompts the same step, otherwise the
/// record is written before the create command is handed out.
pub fn handle_pack_name(
    reg: &mut PackRegistry,
    owner: i64,
    file_id: String,
    is_sticker: bool,
    display_name: String,
    translit_stem: String,
) -> (r: NameStep)
    requires
        old(reg).wf(),
    ensures
        final(reg).wf(),
        has_key(old(reg)@, owner as int, pack_id_spec(translit_stem@)) ==> (r matches
        NameStep::Conflict { state, prompt } && state == State::GetPackName { file_id, is_sticker }
            && prompt == Prompt::NameTaken && final(reg)@ == old(reg)@),
        !has_key(old(reg)@, owner as int, pack_id_spec(translit_stem@)) ==> (r matches
        NameStep::Launch { command } && (command matches Command::CreatePack {
            owner: o,
            generated_id,
            display_name: d,
            file_id: f,
            is_sticker: s,
        } && o == owner && generated_id@ == pack_id_spec(translit_stem@) && d == display_name && f
            == file_id && s == is_sticker) && final(reg)@ == old(reg)@.push(
            Row {
                owner: owner as int,
                display_name: display_name@,
                generated_id: pack_id_spec(translit_stem@),
            },
        )),
{
    let generated_id = pack_id_from_stem(&translit_stem);
    match reg.register_if_absent(owner, &display_name, &generated_id) {
        Err(RegistryError::Conflict) => NameStep::Conflict {
            state: State::GetPackName { file_id, is_sticker },
            prompt: Prompt::NameTaken,
        },
        Ok((id, _created)) => NameStep::Launch {
            command: Command::CreatePack {
                owner,
                generated_id: id,
                display_name,
                file_id,
                is_sticker,
            },
        },
    }
}

/// The outcome of a create command: success ends the session at idle; any
/// failure rolls the fresh record back so no orphaned row remains, and ends
/// the session at idle with the matching notice.
pub fn handle_create_result(
    reg: &mut PackRegistry,
    owner: i64,
    generated_id: &String,
    outcome: AttemptOutcome,
) -> (r: (State, Prompt))
    requires
        old(reg).wf(),
    ensures
        final(reg).wf(),
        r.0 == State::Start,
        outcome == AttemptOutcome::Success ==> final(reg)@ == old(reg)@ && (r.1 matches
        Prompt::PackCreated { generated_id: g } && g@ == generated_id@),
        outcome != AttemptOutcome::Success ==> final(reg)@ == without_key(
            old(reg)@,
            owner as int,
            generated_id@,
        ) && !has_key(final(reg)@, owner as int, generated_id@),
        outcome == AttemptOutcome::NormalizationFailed ==> r.1 == Prompt::NormalizationFailed,
        (outcome == AttemptOutcome::StickerSetInvalid || outcome == AttemptOutcome::AdapterFailed)
            ==> r.1 == Prompt::CreateFailed,
{
    match outcome {
        AttemptOutcome::Success => (
            State::Start,
            Prompt::PackCreated { generated_id: generated_id.clone() },
        ),
        AttemptOutcome::NormalizationFailed => {
            reg.forget(owner, generated_id);
            (State::Start, Prompt::NormalizationFailed)
        },
        AttemptOutcome::StickerSetInvalid | AttemptOutcome::AdapterFailed => {
            reg.forget(owner, generated_id);
            (State::Start, Prompt::CreateFailed)
        },
    }
}

/// The reply to the target step: a missing text aborts the session, a text
/// names the pack to append to.
pub fn handle_target_pack(
    owner: i64,
    file_id: String,
    is_sticker: bool,
    text: Option<String>,
) -> (r: TargetStep)
    ensures
        match text {
            None => r matches TargetStep::Abort { state, prompt } && state == State::Start
                && prompt == Prompt::UseButtons,
            Some(id) => r matches TargetStep::Launch { command } && command
                == (Command::AppendToPack { owner, generated_id: id, file_id, is_sticker }),
        },
{
    match text {
        None => TargetStep::Abort { state: State::Start, prompt: Prompt::UseButtons },
        Some(id) => TargetStep::Launch {
            command: Command::AppendToPack { owner, generated_id: id, file_id, is_sticker },
        },
    }
}

/// The outcome of an append command: success ends the session at idle; a
/// stale target repairs the registry and re-routes the session to the choice
/// step if other packs remain, else to naming a new pack; any other failure
/// ends the session at idle.
pub fn handle_append_result(
    reg: &mut PackRegistry,
    owner: i64,
    generated_id: &String,
    file_id: String,
    is_sticker: bool,
    outcome: AttemptOutcome,
) -> (r: (State, Prompt))
    requires
        old(reg).wf(),
    ensures
        final(reg).wf(),
        outcome == AttemptOutcome::Success ==> final(reg)@ == old(reg)@ && r.0 == State::Start && (
        r.1 matches Prompt::StickerAdded { generated_id: g } && g@ == generated_id@),
        outcome == AttemptOutcome::NormalizationFailed ==> final(reg)@ == old(reg)@ && r == (
            State::Start,
            Prompt::NormalizationFailed,
        ),
        outcome == AttemptOutcome::AdapterFailed ==> final(reg)@ == old(reg)@ && r == (
            State::Start,
            Prompt::AppendFailed,
        ),
        outcome == AttemptOutcome::StickerSetInvalid ==> {
            &&& final(reg)@ == without_key(old(reg)@, owner as int, generated_id@)
            &&& !has_key(final(reg)@, owner as int, generated_id@)
            &&& ids_for(final(reg)@, owner as int).len() > 0 ==> r == (
                State::AwaitingAction { file_id, is_sticker },
                Prompt::PackGoneChooseAction,
            )
            &&& ids_for(final(reg)@, owner as int).len() == 0 ==> r == (
                State::GetPackName { file_id, is_sticker },
                Prompt::PackGoneAskPackName,
            )
        },
{
    match outcome {
        AttemptOutcome::Success => (
            State::Start,
            Prompt::StickerAdded { generated_id: generated_id.clone() },
        ),
        AttemptOutcome::NormalizationFailed => (State::Start, Prompt::NormalizationFailed),
        AttemptOutcome::AdapterFailed => (State::Start, Prompt::AppendFailed),
        AttemptOutcome::StickerSetInvalid => {
            reg.forget(owner, generated_id);
            if reg.has_packs(owner) {
                (State::AwaitingAction { file_id, is_sticker }, Prompt::PackGoneChooseAction)
            } else {
                (State::GetPackName { file_id, is_sticker }, Prompt::PackGoneAskPackName)
            }
        },
    }
}

} // verus!
