use grafter::effects::{Effect, Replies, Reply, Step};
use grafter::provider::{Group, ProviderAnswer, ProviderCall, UpdateUser};
use grafter::script::Cursor;
use grafter::service::changes::{apply_change_diff, diff_to_update, has_any_change};
use grafter::storage::FieldChange;

fn field(name: &str, before: Option<&str>, after: &str) -> FieldChange {
    FieldChange { field: name.into(), before: before.map(String::from), after: after.into() }
}

#[test]
fn maps_name_and_email_fields() {
    let update = diff_to_update(&[
        field("first_name", Some("Old"), "New"),
        field("email", None, "new@smartech.ir"),
    ]);
    assert_eq!(update.first_name.as_deref(), Some("New"));
    assert_eq!(update.email.as_deref(), Some("new@smartech.ir"));
    assert!(update.last_name.is_none());
    assert!(update.enabled.is_none());
    assert!(update.attributes.is_none());
}

#[test]
fn maps_enabled_as_bool_from_string() {
    let update = diff_to_update(&[field("enabled", Some("true"), "false")]);
    assert_eq!(update.enabled, Some(false));
}

#[test]
fn collects_attribute_fields_into_one_map() {
    let update = diff_to_update(&[
        field("team", None, "platform"),
        field("phone_number", None, "0912"),
        field("personnel_code", None, "1234"),
    ]);
    let attrs = update.attributes.expect("attributes should be set");
    assert_eq!(attrs.get("team"), Some(&vec!["platform".to_string()]));
    assert_eq!(attrs.get("phone_number"), Some(&vec!["0912".to_string()]));
    assert_eq!(attrs.get("personnel_code"), Some(&vec!["1234".to_string()]));
}

#[test]
fn team_group_id_is_not_part_of_update_user() {
    // Handled on its own by apply_change_diff, which moves the user between groups.
    let update = diff_to_update(&[field("team_group_id", None, "abc")]);
    assert!(!has_any_change(&update));
}

#[test]
fn ignores_unknown_fields() {
    let update = diff_to_update(&[field("some_future_field", None, "abc")]);
    assert!(!has_any_change(&update));
}

#[test]
fn empty_diff_has_no_change() {
    assert!(!has_any_change(&diff_to_update(&[])));
}

#[test]
fn later_changes_of_a_field_win() {
    let update = diff_to_update(&[
        field("last_name", None, "First"),
        field("team", None, "one"),
        field("last_name", None, "Second"),
        field("team", None, "two"),
        field("enabled", None, "true"),
    ]);
    assert_eq!(update.last_name.as_deref(), Some("Second"));
    assert_eq!(update.enabled, Some(true));
    assert_eq!(update.attributes.unwrap().get("team"), Some(&vec!["two".to_string()]));
}

#[test]
fn an_update_of_nothing_changes_nothing() {
    assert!(!has_any_change(&UpdateUser::default()));
    let mut update = UpdateUser::default();
    update.phone_number = Some("0912".to_string());
    assert!(has_any_change(&update));
}

fn group(id: &str) -> Group {
    Group {
        id: id.to_string(),
        name: id.to_string(),
        path: format!("/{id}"),
        subgroups: vec![],
        realm_roles: vec![],
    }
}

fn next_call(diff: &Vec<FieldChange>, replies: &Vec<Reply>) -> Result<(), Step> {
    let mut cursor: Replies = Cursor::new(replies);
    apply_change_diff(&mut cursor, "smartech", "u1", diff)
}

#[test]
fn moving_leaves_every_other_group_first() {
    let diff = vec![field("team_group_id", None, "b")];
    let mut replies = vec![];
    let get = ProviderCall::GetUserGroups { realm: "smartech".into(), user_id: "u1".into() };
    assert_eq!(next_call(&diff, &replies), Err(Step::Perform(Effect::Provider(get))));
    replies.push(Reply::Provider(ProviderAnswer::Groups(vec![group("a"), group("b"), group("c")])));
    for left in ["a", "c"] {
        let leave = ProviderCall::RemoveUserFromGroup {
            realm: "smartech".into(),
            user_id: "u1".into(),
            group_id: left.into(),
        };
        assert_eq!(next_call(&diff, &replies), Err(Step::Perform(Effect::Provider(leave))));
        replies.push(Reply::Provider(ProviderAnswer::Done));
    }
    let join = ProviderCall::AddUserToGroup {
        realm: "smartech".into(),
        user_id: "u1".into(),
        group_id: "b".into(),
    };
    assert_eq!(next_call(&diff, &replies), Err(Step::Perform(Effect::Provider(join))));
    replies.push(Reply::Provider(ProviderAnswer::Done));
    assert_eq!(next_call(&diff, &replies), Ok(()));
}
