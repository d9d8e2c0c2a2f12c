use flex_stickerpack::engine::{
    handle_action, handle_append_result, handle_create_result, handle_media, handle_pack_name,
    handle_pack_name_text, handle_target_pack, AttemptOutcome, Command, NameStep, Prompt, State,
    TargetStep, TextStep,
};
use flex_stickerpack::registry::PackRegistry;

fn s(x: &str) -> String {
    String::from(x)
}

fn registry_with(owner: i64, ids: &[&str]) -> PackRegistry {
    let mut reg = PackRegistry::new();
    for pack in ids {
        assert!(reg.restore(owner, format!("display {pack}"), s(pack)));
    }
    reg
}

#[test]
fn media_with_no_packs_skips_the_choice_step() {
    let reg = PackRegistry::new();
    let (state, prompt) = handle_media(&reg, 10, s("file-1"), false);
    assert_eq!(state, State::GetPackName { file_id: s("file-1"), is_sticker: false });
    assert_eq!(prompt, Prompt::NoPacksAskPackName);
}

#[test]
fn media_with_packs_offers_the_choice() {
    let reg = registry_with(10, &["a"]);
    let (state, prompt) = handle_media(&reg, 10, s("file-1"), true);
    assert_eq!(state, State::AwaitingAction { file_id: s("file-1"), is_sticker: true });
    assert_eq!(prompt, Prompt::ChooseAction);
}

#[test]
fn media_only_counts_the_senders_own_packs() {
    let reg = registry_with(99, &["a"]);
    let (state, prompt) = handle_media(&reg, 10, s("file-1"), false);
    assert_eq!(state, State::GetPackName { file_id: s("file-1"), is_sticker: false });
    assert_eq!(prompt, Prompt::NoPacksAskPackName);
}

#[test]
fn action_add_lists_the_targets() {
    let reg = registry_with(10, &["a", "b"]);
    let (state, prompt) = handle_action(&reg, 10, s("f"), true, Some(&s("add")));
    assert_eq!(state, State::AddingToPack { file_id: s("f"), is_sticker: true });
    assert_eq!(prompt, Prompt::ChooseTargetPack { packs: vec![s("a"), s("b")] });
}

#[test]
fn action_add_without_packs_redirects_to_naming() {
    let reg = PackRegistry::new();
    let (state, prompt) = handle_action(&reg, 10, s("f"), false, Some(&s("add")));
    assert_eq!(state, State::GetPackName { file_id: s("f"), is_sticker: false });
    assert_eq!(prompt, Prompt::NoPacksAskPackName);
}

#[test]
fn action_create_asks_for_a_name() {
    let reg = registry_with(10, &["a"]);
    let (state, prompt) = handle_action(&reg, 10, s("f"), false, Some(&s("create")));
    assert_eq!(state, State::GetPackName { file_id: s("f"), is_sticker: false });
    assert_eq!(prompt, Prompt::AskPackName);
}

#[test]
fn action_unrecognized_aborts_the_session() {
    let reg = registry_with(10, &["a"]);
    let (state, prompt) = handle_action(&reg, 10, s("f"), false, Some(&s("nonsense")));
    assert_eq!(state, State::Start);
    assert_eq!(prompt, Prompt::UseButtons);
    let (state, prompt) = handle_action(&reg, 10, s("f"), false, None);
    assert_eq!(state, State::Start);
    assert_eq!(prompt, Prompt::UseButtons);
}

#[test]
fn non_text_in_text_expecting_states_aborts() {
    match handle_pack_name_text(None) {
        TextStep::Abort { state, prompt } => {
            assert_eq!(state, State::Start);
            assert_eq!(prompt, Prompt::UseButtons);
        }
        TextStep::Name { .. } => panic!("expected an abort"),
    }
    match handle_target_pack(10, s("f"), false, None) {
        TargetStep::Abort { state, prompt } => {
            assert_eq!(state, State::Start);
            assert_eq!(prompt, Prompt::UseButtons);
        }
        TargetStep::Launch { .. } => panic!("expected an abort"),
    }
}

#[test]
fn create_flow_registers_once_and_ends_idle() {
    let mut reg = PackRegistry::new();
    let owner = 10;

    let (state, _prompt) = handle_media(&reg, owner, s("photo-1"), false);
    assert_eq!(state, State::GetPackName { file_id: s("photo-1"), is_sticker: false });

    let (name, stem) = match handle_pack_name_text(Some(s("My Pack"))) {
        TextStep::Name { name, stem } => (name, stem),
        TextStep::Abort { .. } => panic!("expected a name"),
    };
    assert_eq!(stem, "My_Pack");

    let command = match handle_pack_name(&mut reg, owner, s("photo-1"), false, name, stem) {
        NameStep::Launch { command } => command,
        NameStep::Conflict { .. } => panic!("expected a launch"),
    };
    let generated_id = match &command {
        Command::CreatePack { owner: o, generated_id, display_name, file_id, is_sticker } => {
            assert_eq!(*o, owner);
            assert_eq!(generated_id, "My_Pack_by_flex_stickerpack_bot");
            assert_eq!(display_name, "My Pack");
            assert_eq!(file_id, "photo-1");
            assert!(!*is_sticker);
            generated_id.clone()
        }
        Command::AppendToPack { .. } => panic!("expected a create command"),
    };
    assert_eq!(reg.list_packs(owner), vec![generated_id.clone()]);

    let (state, prompt) = handle_create_result(&mut reg, owner, &generated_id, AttemptOutcome::Success);
    assert_eq!(state, State::Start);
    assert_eq!(prompt, Prompt::PackCreated { generated_id: generated_id.clone() });
    assert_eq!(reg.list_packs(owner), vec![generated_id]);
}

#[test]
fn conflicting_name_reprompts_the_same_step() {
    let mut reg = PackRegistry::new();
    let owner = 10;
    assert!(reg.restore(owner, s("My Pack"), s("My_Pack_by_flex_stickerpack_bot")));

    match handle_pack_name(&mut reg, owner, s("f"), false, s("My Pack"), s("My_Pack")) {
        NameStep::Conflict { state, prompt } => {
            assert_eq!(state, State::GetPackName { file_id: s("f"), is_sticker: false });
            assert_eq!(prompt, Prompt::NameTaken);
        }
        NameStep::Launch { .. } => panic!("expected a conflict"),
    }
    assert_eq!(reg.list_packs(owner).len(), 1);
}

#[test]
fn failed_create_rolls_the_record_back() {
    let mut reg = PackRegistry::new();
    let owner = 10;
    let step = handle_pack_name(&mut reg, owner, s("f"), false, s("My Pack"), s("My_Pack"));
    let generated_id = match step {
        NameStep::Launch { command: Command::CreatePack { generated_id, .. } } => generated_id,
        _ => panic!("expected a create command"),
    };
    assert_eq!(reg.list_packs(owner).len(), 1);

    let (state, prompt) = handle_create_result(&mut reg, owner, &generated_id, AttemptOutcome::AdapterFailed);
    assert_eq!(state, State::Start);
    assert_eq!(prompt, Prompt::CreateFailed);
    assert!(reg.list_packs(owner).is_empty());
}

#[test]
fn failed_normalization_during_create_rolls_back_and_notifies() {
    let mut reg = PackRegistry::new();
    let owner = 10;
    let step = handle_pack_name(&mut reg, owner, s("f"), false, s("My Pack"), s("My_Pack"));
    let generated_id = match step {
        NameStep::Launch { command: Command::CreatePack { generated_id, .. } } => generated_id,
        _ => panic!("expected a create command"),
    };
    let (state, prompt) =
        handle_create_result(&mut reg, owner, &generated_id, AttemptOutcome::NormalizationFailed);
    assert_eq!(state, State::Start);
    assert_eq!(prompt, Prompt::NormalizationFailed);
    assert!(reg.list_packs(owner).is_empty());
}

#[test]
fn append_flow_adds_no_record_and_ends_idle() {
    let mut reg = registry_with(10, &["a", "b"]);
    let owner = 10;

    let (state, _prompt) = handle_media(&reg, owner, s("sticker-1"), true);
    assert_eq!(state, State::AwaitingAction { file_id: s("sticker-1"), is_sticker: true });

    let (state, prompt) = handle_action(&reg, owner, s("sticker-1"), true, Some(&s("add")));
    assert_eq!(state, State::AddingToPack { file_id: s("sticker-1"), is_sticker: true });
    assert_eq!(prompt, Prompt::ChooseTargetPack { packs: vec![s("a"), s("b")] });

    let command = match handle_target_pack(owner, s("sticker-1"), true, Some(s("a"))) {
        TargetStep::Launch { command } => command,
        TargetStep::Abort { .. } => panic!("expected a launch"),
    };
    assert_eq!(
        command,
        Command::AppendToPack {
            owner,
            generated_id: s("a"),
            file_id: s("sticker-1"),
            is_sticker: true
        }
    );

    let (state, prompt) =
        handle_append_result(&mut reg, owner, &s("a"), s("sticker-1"), true, AttemptOutcome::Success);
    assert_eq!(state, State::Start);
    assert_eq!(prompt, Prompt::StickerAdded { generated_id: s("a") });
    assert_eq!(reg.list_packs(owner), vec![s("a"), s("b")]);
}

#[test]
fn stale_pack_repair_reroutes_to_choice_when_packs_remain() {
    let mut reg = registry_with(10, &["a", "b"]);
    let (state, prompt) = handle_append_result(
        &mut reg,
        10,
        &s("a"),
        s("f"),
        true,
        AttemptOutcome::StickerSetInvalid,
    );
    assert_eq!(state, State::AwaitingAction { file_id: s("f"), is_sticker: true });
    assert_eq!(prompt, Prompt::PackGoneChooseAction);
    assert_eq!(reg.list_packs(10), vec![s("b")]);
}

#[test]
fn stale_pack_repair_reroutes_to_naming_when_none_remain() {
    let mut reg = registry_with(10, &["a"]);
    let (state, prompt) = handle_append_result(
        &mut reg,
        10,
        &s("a"),
        s("f"),
        false,
        AttemptOutcome::StickerSetInvalid,
    );
    assert_eq!(state, State::GetPackName { file_id: s("f"), is_sticker: false });
    assert_eq!(prompt, Prompt::PackGoneAskPackName);
    assert!(reg.list_packs(10).is_empty());
}

#[test]
fn other_append_failures_abort_without_repair() {
    let mut reg = registry_with(10, &["a"]);
    let (state, prompt) =
        handle_append_result(&mut reg, 10, &s("a"), s("f"), false, AttemptOutcome::AdapterFailed);
    assert_eq!(state, State::Start);
    assert_eq!(prompt, Prompt::AppendFailed);
    assert_eq!(reg.list_packs(10), vec![s("a")]);
}

#[test]
fn default_state_is_idle() {
    assert_eq!(State::default(), State::Start);
}
