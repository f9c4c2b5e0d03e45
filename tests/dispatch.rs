use greeting_dialog::application::{self, Dialog, Msg, State};
use greeting_dialog::input_name_dialog::{self, Msg as DialogMsg, Sub as DialogSub};
use greeting_dialog::runtime::Runtime;

fn draft(r: &Runtime) -> Option<String> {
    r.dialog().map(|c| c.state().clone())
}

fn opened() -> Runtime {
    let mut r = Runtime::start();
    r.dispatch(&Msg::ShowInputNameDialog);
    r
}

#[test]
fn scenario_a_show_opens_empty_dialog() {
    let r = Runtime::start();
    assert_eq!(r.state().name, "");
    assert_eq!(r.state().dialog, Dialog::Closed);
    assert_eq!(draft(&r), None);
    let r = opened();
    assert_eq!(r.state().name, "");
    assert_eq!(r.state().dialog, Dialog::InputName);
    assert_eq!(draft(&r), Some(String::new()));
}

#[test]
fn scenario_b_input_changes_only_the_draft() {
    let mut r = opened();
    r.dispatch_dialog(&DialogMsg::InputName("Ada".to_string()));
    assert_eq!(draft(&r), Some("Ada".to_string()));
    assert_eq!(r.state().name, "");
    assert_eq!(r.state().dialog, Dialog::InputName);
}

#[test]
fn scenario_c_confirm_sets_name_and_closes() {
    let mut r = opened();
    r.dispatch_dialog(&DialogMsg::InputName("Ada".to_string()));
    r.dispatch_dialog(&DialogMsg::Confirm);
    assert_eq!(r.state().name, "Ada");
    assert_eq!(r.state().dialog, Dialog::Closed);
    assert_eq!(draft(&r), None);
}

#[test]
fn scenario_d_cancel_closes_without_name() {
    let mut r = opened();
    r.dispatch_dialog(&DialogMsg::Cancel);
    assert_eq!(r.state().name, "");
    assert_eq!(r.state().dialog, Dialog::Closed);
    assert_eq!(draft(&r), None);
}

#[test]
fn close_dialog_twice_is_close_once() {
    let mut once = opened();
    once.dispatch(&Msg::CloseDialog);
    let mut twice = opened();
    twice.dispatch(&Msg::CloseDialog);
    twice.dispatch(&Msg::CloseDialog);
    assert_eq!(once.state(), twice.state());
    assert_eq!(twice.state().dialog, Dialog::Closed);
    assert_eq!(draft(&twice), None);
}

#[test]
fn close_dialog_when_closed_changes_nothing() {
    let mut r = Runtime::start();
    r.dispatch(&Msg::CloseDialog);
    assert_eq!(r.state().dialog, Dialog::Closed);
    assert_eq!(r.state().name, "");
    assert_eq!(draft(&r), None);
}

#[test]
fn confirm_keeps_text_verbatim() {
    let mut r = opened();
    r.dispatch_dialog(&DialogMsg::InputName("  Grace Hopper ".to_string()));
    r.dispatch_dialog(&DialogMsg::Confirm);
    assert_eq!(r.state().name, "  Grace Hopper ");
    assert_eq!(r.state().dialog, Dialog::Closed);
}

#[test]
fn confirm_of_empty_draft_sets_empty_name() {
    let mut r = opened();
    r.dispatch_dialog(&DialogMsg::InputName("Ada".to_string()));
    r.dispatch_dialog(&DialogMsg::Confirm);
    r.dispatch(&Msg::ShowInputNameDialog);
    r.dispatch_dialog(&DialogMsg::Confirm);
    assert_eq!(r.state().name, "");
    assert_eq!(r.state().dialog, Dialog::Closed);
}

#[test]
fn cancel_keeps_earlier_name() {
    let mut r = opened();
    r.dispatch_dialog(&DialogMsg::InputName("Ada".to_string()));
    r.dispatch_dialog(&DialogMsg::Confirm);
    r.dispatch(&Msg::ShowInputNameDialog);
    r.dispatch_dialog(&DialogMsg::InputName("Bob".to_string()));
    r.dispatch_dialog(&DialogMsg::Cancel);
    assert_eq!(r.state().name, "Ada");
    assert_eq!(r.state().dialog, Dialog::Closed);
}

#[test]
fn remount_after_cancel_starts_empty() {
    let mut r = opened();
    r.dispatch_dialog(&DialogMsg::InputName("x".to_string()));
    r.dispatch_dialog(&DialogMsg::Cancel);
    r.dispatch(&Msg::ShowInputNameDialog);
    assert_eq!(draft(&r), Some(String::new()));
}

#[test]
fn show_while_open_keeps_draft() {
    let mut r = opened();
    r.dispatch_dialog(&DialogMsg::InputName("Ada".to_string()));
    r.dispatch(&Msg::ShowInputNameDialog);
    assert_eq!(draft(&r), Some("Ada".to_string()));
}

#[test]
fn dialog_message_without_dialog_does_nothing() {
    let mut r = Runtime::start();
    r.dispatch_dialog(&DialogMsg::InputName("Ada".to_string()));
    r.dispatch_dialog(&DialogMsg::Confirm);
    assert_eq!(r.state().name, "");
    assert_eq!(r.state().dialog, Dialog::Closed);
    assert_eq!(draft(&r), None);
}

#[test]
fn application_update_each_message() {
    let mut s = application::init();
    assert_eq!(s, State { name: String::new(), dialog: Dialog::Closed });
    assert_eq!(application::update(&mut s, &Msg::ShowInputNameDialog), None);
    assert_eq!(s.dialog, Dialog::InputName);
    assert_eq!(application::update(&mut s, &Msg::SetName("Ada".to_string())), None);
    assert_eq!(s, State { name: "Ada".to_string(), dialog: Dialog::Closed });
    assert_eq!(application::update(&mut s, &Msg::SetName("Bob".to_string())), None);
    assert_eq!(s, State { name: "Bob".to_string(), dialog: Dialog::Closed });
    application::update(&mut s, &Msg::ShowInputNameDialog);
    assert_eq!(application::update(&mut s, &Msg::CloseDialog), None);
    assert_eq!(s, State { name: "Bob".to_string(), dialog: Dialog::Closed });
}

#[test]
fn dialog_update_each_message() {
    let mut d = input_name_dialog::init();
    assert_eq!(d, "");
    assert_eq!(input_name_dialog::update(&mut d, &DialogMsg::InputName("Ada".to_string())), None);
    assert_eq!(d, "Ada");
    assert_eq!(
        input_name_dialog::update(&mut d, &DialogMsg::Confirm),
        Some(DialogSub::Confirmed("Ada".to_string()))
    );
    assert_eq!(d, "Ada");
    assert_eq!(input_name_dialog::update(&mut d, &DialogMsg::Cancel), Some(DialogSub::Cancelled));
    assert_eq!(d, "Ada");
    assert_eq!(input_name_dialog::update(&mut d, &DialogMsg::InputName(String::new())), None);
    assert_eq!(d, "");
}

#[test]
fn component_starts_empty_and_updates() {
    let mut c = input_name_dialog::new();
    assert_eq!(c.state(), "");
    assert_eq!(c.update(&DialogMsg::InputName("Ada".to_string())), None);
    assert_eq!(c.state(), "Ada");
    assert_eq!(c.update(&DialogMsg::Confirm), Some(DialogSub::Confirmed("Ada".to_string())));
}

#[test]
fn outcomes_map_to_application_messages() {
    assert_eq!(
        application::map_sub(DialogSub::Confirmed("Ada".to_string())),
        Msg::SetName("Ada".to_string())
    );
    assert_eq!(application::map_sub(DialogSub::Cancelled), Msg::CloseDialog);
}
