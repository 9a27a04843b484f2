//! Notifications to a user and where they go.
use vstd::prelude::*;

use crate::ids::{BotId, UserId};

verus! {

/// Where a notification goes.
#[derive(Debug, PartialEq, Eq, Clone)]
pub enum NotifyTarget {
    /// The user's default destination.
    Default,
    /// A channel, by its ID.
    Channel(String),
}

/// A target with its channel ID as characters.
pub enum NotifyTargetView {
    /// See [`NotifyTarget::Default`].
    Default,
    /// See [`NotifyTarget::Channel`].
    Channel(Seq<char>),
}

impl View for NotifyTarget {
    type V = NotifyTargetView;

    open spec fn view(&self) -> NotifyTargetView {
        match self {
            NotifyTarget::Default => NotifyTargetView::Default,
            NotifyTarget::Channel(id) => NotifyTargetView::Channel(id@),
        }
    }
}

/// An attached file.
#[derive(Debug, Clone)]
pub struct NotifyFile {
    /// The file name as it is shown, with its extension.
    pub name: String,
    /// The content.
    pub bytes: Vec<u8>,
}

/// An attached file with its parts as sequences.
pub struct NotifyFileView {
    /// The file name.
    pub name: Seq<char>,
    /// The content.
    pub bytes: Seq<u8>,
}

impl View for NotifyFile {
    type V = NotifyFileView;

    open spec fn view(&self) -> NotifyFileView {
        NotifyFileView { name: self.name@, bytes: self.bytes@ }
    }
}

/// The views of a list of files.
pub open spec fn file_views(files: Seq<NotifyFile>) -> Seq<NotifyFileView> {
    files.map_values(|f: NotifyFile| f@)
}

/// One notification.
#[derive(Debug, Clone)]
pub struct Notification {
    /// The user it is for.
    pub user_id: UserId,
    /// The bot it comes from.
    pub bot_id: BotId,
    /// The text; where it is blank the notification is not delivered.
    pub content: String,
    /// Where it goes.
    pub target: NotifyTarget,
    /// The attached files.
    pub files: Vec<NotifyFile>,
}

/// A notification with its parts as sequences.
pub struct NotificationView {
    /// The user it is for.
    pub user_id: Seq<char>,
    /// The bot it comes from.
    pub bot_id: Seq<char>,
    /// The text.
    pub content: Seq<char>,
    /// Where it goes.
    pub target: NotifyTargetView,
    /// The attached files.
    pub files: Seq<NotifyFileView>,
}

impl View for Notification {
    type V = NotificationView;

    open spec fn view(&self) -> NotificationView {
        NotificationView {
            user_id: self.user_id@,
            bot_id: self.bot_id@,
            content: self.content@,
            target: self.target@,
            files: file_views(self.files@),
        }
    }
}

/// A text notification to the default destination, without files.
pub open spec fn text_notification(
    user_id: Seq<char>,
    bot_id: Seq<char>,
    content: Seq<char>,
) -> NotificationView {
    NotificationView {
        user_id,
        bot_id,
        content,
        target: NotifyTargetView::Default,
        files: Seq::<NotifyFileView>::empty(),
    }
}

impl Notification {
    /// A text notification to the default destination, without files.
    pub fn text(user_id: UserId, bot_id: BotId, content: String) -> (r: Self)
        ensures
            r@ == text_notification(user_id@, bot_id@, content@),
    {
        let files: Vec<NotifyFile> = Vec::new();
        assert(file_views(files@) == Seq::<NotifyFileView>::empty());
        Notification { user_id, bot_id, content, target: NotifyTarget::Default, files }
    }

    /// The notification with these files in place of its own.
    pub fn with_files(self, files: Vec<NotifyFile>) -> (r: Self)
        ensures
            r@ == (NotificationView { files: file_views(files@), ..self@ }),
    {
        Notification { files, ..self }
    }

    /// The notification with this destination in place of its own.
    pub fn with_target(self, target: NotifyTarget) -> (r: Self)
        ensures
            r@ == (NotificationView { target: target@, ..self@ }),
    {
        Notification { target, ..self }
    }
}

/// Delivery of notifications. `true` means delivered; on `false`, as for a blank text, the
/// caller tries again later.
pub trait Notifier {
    /// Delivers one notification.
    fn send(&self, notification: Notification) -> bool;
}

/// The notifier for when nothing is wired up: it delivers nothing.
pub struct NullNotifier;

impl Notifier for NullNotifier {
    fn send(&self, notification: Notification) -> (delivered: bool)
        ensures
            !delivered,
    {
        false
    }
}

/// A text notification is for the given user, from the given bot, with the given text, to the
/// user's default destination and without files.
pub proof fn law_text_notification_holds_what_was_given(
    user_id: Seq<char>,
    bot_id: Seq<char>,
    content: Seq<char>,
)
    ensures
        ({
            let notice = text_notification(user_id, bot_id, content);
            &&& notice.user_id == user_id
            &&& notice.bot_id == bot_id
            &&& notice.content == content
            &&& notice.target is Default
            &&& notice.files.len() == 0
        }),
{
}

/// The view of a notification holds each of its fields, and as many files, in their order.
pub proof fn law_notification_view_is_faithful(notice: Notification, k: int)
    ensures
        notice@.user_id == notice.user_id@,
        notice@.bot_id == notice.bot_id@,
        notice@.content == notice.content@,
        notice.target is Default <==> notice@.target is Default,
        notice.target matches NotifyTarget::Channel(id) ==> notice@.target
            == NotifyTargetView::Channel(id@),
        notice@.files.len() == notice.files@.len(),
        0 <= k < notice.files@.len() ==> notice@.files[k].name == notice.files@[k].name@
            && notice@.files[k].bytes == notice.files@[k].bytes@,
{
}

} // verus!
