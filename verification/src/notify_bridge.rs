//! From a notification to what the Discord messenger is asked to send.
use vstd::prelude::*;

use crate::ids::{BotId, UserId};
use crate::notifier::{Notification, NotificationView, NotifyFile, NotifyTarget};

verus! {

/// Where the messenger delivers.
#[derive(Debug, PartialEq, Eq, Clone)]
pub enum DeliverTarget {
    /// A direct message to the user.
    Dm,
    /// A channel, by its ID.
    Channel(String),
}

/// A messenger target with its channel ID as characters.
pub enum DeliverTargetView {
    /// See [`DeliverTarget::Dm`].
    Dm,
    /// See [`DeliverTarget::Channel`].
    Channel(Seq<char>),
}

impl View for DeliverTarget {
    type V = DeliverTargetView;

    open spec fn view(&self) -> DeliverTargetView {
        match self {
            DeliverTarget::Dm => DeliverTargetView::Dm,
            DeliverTarget::Channel(id) => DeliverTargetView::Channel(id@),
        }
    }
}

/// An attachment of a reply.
#[derive(Debug, Clone)]
pub struct FileAttachment {
    /// The file name.
    pub name: String,
    /// The content.
    pub bytes: Vec<u8>,
}

/// What the messenger sends.
#[derive(Debug, Clone)]
pub struct TurnReply {
    /// The text.
    pub text: String,
    /// The attachments.
    pub files: Vec<FileAttachment>,
}

/// One request to the messenger.
#[derive(Debug, Clone)]
pub struct Delivery {
    /// The user it is for.
    pub user_id: UserId,
    /// The bot it is sent by.
    pub bot_id: BotId,
    /// What is sent.
    pub reply: TurnReply,
    /// Where it is sent.
    pub target: DeliverTarget,
}

/// The messenger target for a notification target: the default is a direct message.
pub open spec fn deliver_target(
    target: crate::notifier::NotifyTargetView,
) -> DeliverTargetView {
    match target {
        crate::notifier::NotifyTargetView::Default => DeliverTargetView::Dm,
        crate::notifier::NotifyTargetView::Channel(id) => DeliverTargetView::Channel(id),
    }
}

/// The attachment holds what the file holds.
pub open spec fn same_file(attachment: FileAttachment, file: NotifyFile) -> bool {
    attachment.name@ == file.name@ && attachment.bytes@ == file.bytes@
}

/// There is something to deliver: a text that is not all white space. Files alone are not
/// delivered.
pub open spec fn deliverable(notification: NotificationView) -> bool {
    crate::text::trimmed(notification.content).len() > 0
}

/// The messenger target for a notification target.
pub fn to_deliver_target(target: NotifyTarget) -> (r: DeliverTarget)
    ensures
        r@ == deliver_target(target@),
{
    match target {
        NotifyTarget::Default => DeliverTarget::Dm,
        NotifyTarget::Channel(id) => DeliverTarget::Channel(id),
    }
}

/// The attachments for a list of files, in the same order.
fn attachments(files: Vec<NotifyFile>) -> (r: Vec<FileAttachment>)
    ensures
        r@.len() == files@.len(),
        forall|i: int| 0 <= i < r@.len() ==> same_file(#[trigger] r@[i], files@[i]),
{
    let ghost all = files@;
    let mut left: Vec<NotifyFile> = files;
    let mut out: Vec<FileAttachment> = Vec::new();
    while left.len() > 0
        invariant
            left@ == all.skip(out@.len() as int),
            out@.len() <= all.len(),
            forall|i: int| 0 <= i < out@.len() ==> same_file(#[trigger] out@[i], all[i]),
        decreases left.len(),
    {
        let ghost k = out@.len() as int;
        let file: NotifyFile = left.remove(0);
        assert(file == all[k]);
        out.push(FileAttachment { name: file.name, bytes: file.bytes });
        assert(left@ == all.skip(k + 1));
    }
    out
}

/// What the messenger is asked to send for a notification; nothing where the text is blank,
/// whatever files are attached.
pub fn prepare_delivery(notification: Notification) -> (r: Option<Delivery>)
    ensures
        r is Some <==> deliverable(notification@),
        r matches Some(d) ==> {
            &&& d.user_id@ == notification.user_id@
            &&& d.bot_id@ == notification.bot_id@
            &&& d.reply.text@ == notification.content@
            &&& d.target@ == deliver_target(notification.target@)
            &&& d.reply.files@.len() == notification.files@.len()
            &&& forall|i: int|
                0 <= i < d.reply.files@.len() ==> same_file(
                    #[trigger] d.reply.files@[i],
                    notification.files@[i],
                )
        },
{
    if crate::text::trim(notification.content.as_str()).as_str().is_empty() {
        return None;
    }
    let files: Vec<FileAttachment> = attachments(notification.files);
    Some(
        Delivery {
            user_id: notification.user_id,
            bot_id: notification.bot_id,
            reply: TurnReply { text: notification.content, files },
            target: to_deliver_target(notification.target),
        },
    )
}

/// Whether there is something to deliver depends on the text alone: not on the user, the bot,
/// the target or the files.
pub proof fn law_deliverable_by_content(one: NotificationView, two: NotificationView)
    requires
        one.content == two.content,
    ensures
        deliverable(one) == deliverable(two),
{
}

/// There is something to deliver exactly where some character of the text is not white space.
pub proof fn law_deliverable_has_a_visible_character(notification: NotificationView)
    ensures
        deliverable(notification) <==> exists|k: int|
            0 <= k < notification.content.len() && !crate::text::is_white_space(
                #[trigger] notification.content[k],
            ),
{
    crate::text_laws::law_blank_is_all_white_space(notification.content);
}

/// A notification to a channel is delivered to that channel, and one to the default
/// destination by a direct message.
pub proof fn law_target_is_kept(id: Seq<char>)
    ensures
        deliver_target(crate::notifier::NotifyTargetView::Channel(id))
            == DeliverTargetView::Channel(id),
        deliver_target(crate::notifier::NotifyTargetView::Default) is Dm,
{
}

/// An attachment holds what a file holds where the name and every byte agree.
pub proof fn law_same_file_agrees_in_name_and_bytes(
    attachment: FileAttachment,
    file: NotifyFile,
    k: int,
)
    requires
        same_file(attachment, file),
    ensures
        attachment.name@ == file.name@,
        attachment.bytes@.len() == file.bytes@.len(),
        0 <= k < file.bytes@.len() ==> attachment.bytes@[k] == file.bytes@[k],
{
}

/// The view of a messenger target holds its channel.
pub proof fn law_target_view_is_faithful(target: DeliverTarget)
    ensures
        target is Dm <==> target@ is Dm,
        target matches DeliverTarget::Channel(id) ==> target@ == DeliverTargetView::Channel(id@),
{
}

} // verus!
