use std::sync::Mutex;

use yuuka::ids::{BotId, SecretString, UserId};
use yuuka::notifier::{Notification, Notifier, NotifyFile, NotifyTarget, NullNotifier};
use yuuka::notify_bridge::{prepare_delivery, to_deliver_target, DeliverTarget};

fn user(id: &str) -> UserId {
    UserId::new(id.to_owned())
}

fn bot(id: &str) -> BotId {
    BotId::new(id.to_owned())
}

#[test]
fn default_maps_to_dm() {
    assert!(matches!(
        to_deliver_target(NotifyTarget::Default),
        DeliverTarget::Dm
    ));
}

#[test]
fn channel_id_passes_through() {
    assert!(matches!(
        to_deliver_target(NotifyTarget::Channel("123456".to_owned())),
        DeliverTarget::Channel(id) if id == "123456"
    ));
}

#[test]
fn null_notifier_reports_undelivered() {
    let n = NullNotifier;
    let ok = n.send(Notification::text(
        user("u"),
        bot("system_default"),
        "hi".to_owned(),
    ));
    assert!(!ok);
}

struct RecordingNotifier {
    answer: bool,
    sent: Mutex<Vec<Notification>>,
}

impl Notifier for RecordingNotifier {
    fn send(&self, notification: Notification) -> bool {
        self.sent.lock().expect("lock").push(notification);
        self.answer
    }
}

#[test]
fn recording_notifier_captures_content_and_target() {
    let rec = RecordingNotifier { answer: true, sent: Mutex::new(Vec::new()) };
    let ok = rec.send(
        Notification::text(user("u"), bot("b"), "x".to_owned())
            .with_target(NotifyTarget::Channel("c1".to_owned())),
    );
    assert!(ok);
    let sent = rec.sent.lock().expect("lock");
    assert_eq!(sent.len(), 1);
    assert_eq!(sent[0].content, "x");
    assert_eq!(sent[0].target, NotifyTarget::Channel("c1".to_owned()));
}

#[test]
fn text_goes_to_the_default_without_files() {
    let n = Notification::text(user("u"), bot("b"), "hi".to_owned());
    assert_eq!(n.user_id.as_str(), "u");
    assert_eq!(n.bot_id.as_str(), "b");
    assert_eq!(n.target, NotifyTarget::Default);
    assert!(n.files.is_empty());
}

#[test]
fn delivery_carries_everything() {
    let files = vec![
        NotifyFile { name: "a.jpg".to_owned(), bytes: vec![1, 2] },
        NotifyFile { name: "b.jpg".to_owned(), bytes: vec![3] },
    ];
    let n = Notification::text(user("u"), bot("b"), " hi ".to_owned())
        .with_files(files)
        .with_target(NotifyTarget::Channel("c".to_owned()));
    let d = prepare_delivery(n).expect("deliverable");
    assert_eq!(d.user_id.as_str(), "u");
    assert_eq!(d.bot_id.as_str(), "b");
    assert_eq!(d.reply.text, " hi ");
    assert_eq!(d.target, DeliverTarget::Channel("c".to_owned()));
    let got: Vec<(String, Vec<u8>)> =
        d.reply.files.into_iter().map(|f| (f.name, f.bytes)).collect();
    assert_eq!(
        got,
        vec![("a.jpg".to_owned(), vec![1, 2]), ("b.jpg".to_owned(), vec![3])]
    );
}

#[test]
fn blank_text_is_not_delivered() {
    let blank = " \n\u{3000}\t".to_owned();
    assert!(prepare_delivery(Notification::text(user("u"), bot("b"), blank.clone())).is_none());
    assert!(prepare_delivery(Notification::text(user("u"), bot("b"), String::new())).is_none());
    for text in [blank, String::new()] {
        let with_file = Notification::text(user("u"), bot("b"), text)
            .with_files(vec![NotifyFile { name: "a".to_owned(), bytes: vec![1] }]);
        assert!(prepare_delivery(with_file).is_none());
    }
}

#[test]
fn secret_is_exposed_only_on_request() {
    let secret = SecretString::new("s3cr3t".to_owned());
    assert_eq!(secret.expose_secret(), "s3cr3t");
    assert_eq!(secret.duplicate().expose_secret(), "s3cr3t");
}
