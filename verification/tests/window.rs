use rusant::call::{MediaStart, PipelineKind};
use rusant::call_pane::{CallPane, PipelineCommand};
use rusant::contact_item::ContactItem;
use rusant::main_window::{MainWindow, Page};

#[test]
fn window_starts_on_the_greeter_with_restored_contacts() {
    let w = MainWindow::new(vec![ContactItem::new("Jakob"), ContactItem::new("Felicitas")]);
    assert_eq!(w.visible_page(), Page::Greeter);
    assert_eq!(w.contact().contacts().len(), 2);
    assert!(w.call_pane().placeholder_visible());
}

#[test]
fn switching_pages() {
    let mut w = MainWindow::new(Vec::new());
    w.switch_to_leaflet();
    assert_eq!(w.visible_page(), Page::Leaflet);
    w.switch_to_leaflet();
    assert_eq!(w.visible_page(), Page::Leaflet);
    w.switch_to_greeter_page();
    assert_eq!(w.visible_page(), Page::Greeter);
}

#[test]
fn backup_data_lists_names_in_order() {
    let mut w = MainWindow::new(vec![ContactItem::new("Jakob")]);
    w.contact_mut().add_contact_dialog_response("add", "Daniel");
    let names: Vec<String> = w.backup_data().into_iter().map(|d| d.name).collect();
    assert_eq!(names, vec![String::from("Jakob"), String::from("Daniel")]);
}

#[test]
fn media_fills_the_call_pane() {
    let mut w = MainWindow::new(Vec::new());
    let pane = w.call_pane_mut();
    pane.show_media(&MediaStart {
        pipeline: PipelineKind::VideoSender,
        shows_picture: true,
        camera_video_visible: true,
    });
    pane.show_media(&MediaStart {
        pipeline: PipelineKind::VideoReceiver,
        shows_picture: true,
        camera_video_visible: true,
    });
    pane.show_media(&MediaStart {
        pipeline: PipelineKind::AudioSender,
        shows_picture: false,
        camera_video_visible: false,
    });
    assert_eq!(w.call_pane().grid(), &vec![PipelineKind::VideoReceiver, PipelineKind::VideoSender]);
    assert!(!w.call_pane().camera_video_visible());
    assert!(w.call_pane().call_box_visible());
    assert!(!w.call_pane().placeholder_visible());
}

#[test]
fn media_buttons_toggle_their_senders() {
    let mut pane = CallPane::new();
    assert!(pane.camera_video_suggested());
    assert_eq!(pane.click_camera_video(), PipelineCommand::Pause);
    assert!(!pane.camera_video_suggested());
    assert_eq!(pane.click_camera_video(), PipelineCommand::Start);
    assert_eq!(pane.click_audio_input_microphone(), PipelineCommand::Pause);
    assert!(!pane.microphone_suggested());
    assert_eq!(pane.click_audio_input_microphone(), PipelineCommand::Start);
}

#[test]
fn ending_a_call_resets_the_pane() {
    let mut pane = CallPane::new();
    pane.show_media(&MediaStart {
        pipeline: PipelineKind::VideoReceiver,
        shows_picture: true,
        camera_video_visible: true,
    });
    pane.click_camera_video();
    pane.end_call();
    assert!(pane.placeholder_visible());
    assert!(!pane.call_box_visible() && !pane.action_bar_visible());
    assert!(pane.camera_video_suggested() && pane.microphone_suggested());
    assert!(pane.grid().is_empty());
}
