//! Posts, the picture that stands for a post, and the text that is sent for it.
use vstd::prelude::*;
use vstd::string::StringExecFns;

use crate::text::{decimal_text, join, same_text, trim, truncate_chars};

verus! {

/// The media type of a video.
pub const VIDEO: &'static str = "VIDEO";

/// The media type of an album.
pub const CAROUSEL_ALBUM: &'static str = "CAROUSEL_ALBUM";

/// The most characters of a caption that are forwarded; the links need the rest of a message.
pub const MAX_CAPTION_CHARS: usize = 1500;

/// The first line of every message.
pub const HEADER_LINE: &'static str = "📸 新規投稿を1件確認しました。";

/// The remark on a video.
pub const VIDEO_NOTE: &'static str = "🎬 動画です。内容はリンク先でご確認ください。";

/// The remark on an album, before the number of its pictures.
pub const ALBUM_NOTE_HEAD: &'static str = "🖼 写真";

/// The remark on an album, after the number of its pictures.
pub const ALBUM_NOTE_TAIL: &'static str = "枚の投稿です。先頭の1枚のみ載せておきますね。";

/// The remark on any other post.
pub const PLAIN_NOTE: &'static str = "内容は以上です。共有しておきますね。";

/// One picture or video of an album.
#[derive(Debug, PartialEq, Eq)]
pub struct MediaChild {
    /// The media type.
    pub media_type: String,
    /// The picture or video itself.
    pub media_url: Option<String>,
    /// The preview picture.
    pub thumbnail_url: Option<String>,
}

/// One post.
#[derive(Debug, PartialEq, Eq)]
pub struct Media {
    /// The post's ID.
    pub id: String,
    /// When it was posted.
    pub timestamp: String,
    /// `IMAGE`, `VIDEO`, `CAROUSEL_ALBUM`, ...
    pub media_type: String,
    /// The picture or video itself.
    pub media_url: Option<String>,
    /// The preview picture.
    pub thumbnail_url: Option<String>,
    /// The page of the post.
    pub permalink: Option<String>,
    /// The caption.
    pub caption: Option<String>,
    /// Who posted it.
    pub username: Option<String>,
    /// The pictures and videos of an album.
    pub children: Vec<MediaChild>,
}

/// A child with its texts as characters.
pub struct MediaChildView {
    /// The media type.
    pub media_type: Seq<char>,
    /// The picture or video itself.
    pub media_url: Option<Seq<char>>,
    /// The preview picture.
    pub thumbnail_url: Option<Seq<char>>,
}

/// A post with its texts as characters.
pub struct MediaView {
    /// The post's ID.
    pub id: Seq<char>,
    /// When it was posted.
    pub timestamp: Seq<char>,
    /// The media type.
    pub media_type: Seq<char>,
    /// The picture or video itself.
    pub media_url: Option<Seq<char>>,
    /// The preview picture.
    pub thumbnail_url: Option<Seq<char>>,
    /// The page of the post.
    pub permalink: Option<Seq<char>>,
    /// The caption.
    pub caption: Option<Seq<char>>,
    /// Who posted it.
    pub username: Option<Seq<char>>,
    /// The pictures and videos of an album.
    pub children: Seq<MediaChildView>,
}

impl View for MediaChild {
    type V = MediaChildView;

    open spec fn view(&self) -> MediaChildView {
        MediaChildView {
            media_type: self.media_type@,
            media_url: crate::text::opt_text(self.media_url),
            thumbnail_url: crate::text::opt_text(self.thumbnail_url),
        }
    }
}

/// The views of a list of children.
pub open spec fn child_views(children: Seq<MediaChild>) -> Seq<MediaChildView> {
    children.map_values(|c: MediaChild| c@)
}

impl View for Media {
    type V = MediaView;

    open spec fn view(&self) -> MediaView {
        MediaView {
            id: self.id@,
            timestamp: self.timestamp@,
            media_type: self.media_type@,
            media_url: crate::text::opt_text(self.media_url),
            thumbnail_url: crate::text::opt_text(self.thumbnail_url),
            permalink: crate::text::opt_text(self.permalink),
            caption: crate::text::opt_text(self.caption),
            username: crate::text::opt_text(self.username),
            children: child_views(self.children@),
        }
    }
}

/// The views of a list of posts.
pub open spec fn media_views(media: Seq<Media>) -> Seq<MediaView> {
    media.map_values(|m: Media| m@)
}

impl Clone for MediaChild {
    fn clone(&self) -> (r: Self)
        ensures
            r@ == self@,
    {
        MediaChild {
            media_type: self.media_type.clone(),
            media_url: copy_opt(&self.media_url),
            thumbnail_url: copy_opt(&self.thumbnail_url),
        }
    }
}

impl Clone for Media {
    fn clone(&self) -> (r: Self)
        ensures
            r@ == self@,
    {
        Media {
            id: self.id.clone(),
            timestamp: self.timestamp.clone(),
            media_type: self.media_type.clone(),
            media_url: copy_opt(&self.media_url),
            thumbnail_url: copy_opt(&self.thumbnail_url),
            permalink: copy_opt(&self.permalink),
            caption: copy_opt(&self.caption),
            username: copy_opt(&self.username),
            children: copy_children(&self.children),
        }
    }
}

impl Default for MediaChild {
    fn default() -> (r: Self)
        ensures
            r@ == (MediaChildView {
                media_type: Seq::<char>::empty(),
                media_url: None,
                thumbnail_url: None,
            }),
    {
        MediaChild { media_type: String::new(), media_url: None, thumbnail_url: None }
    }
}

impl Default for Media {
    fn default() -> (r: Self)
        ensures
            r@ == (MediaView {
                id: Seq::<char>::empty(),
                timestamp: Seq::<char>::empty(),
                media_type: Seq::<char>::empty(),
                media_url: None,
                thumbnail_url: None,
                permalink: None,
                caption: None,
                username: None,
                children: Seq::<MediaChildView>::empty(),
            }),
    {
        let children: Vec<MediaChild> = Vec::new();
        assert(child_views(children@) == Seq::<MediaChildView>::empty());
        Media {
            id: String::new(),
            timestamp: String::new(),
            media_type: String::new(),
            media_url: None,
            thumbnail_url: None,
            permalink: None,
            caption: None,
            username: None,
            children,
        }
    }
}

/// A second copy of an optional string.
pub(crate) fn copy_opt(value: &Option<String>) -> (r: Option<String>)
    ensures
        crate::text::opt_text(r) == crate::text::opt_text(*value),
{
    match value {
        Some(s) => Some(s.clone()),
        None => None,
    }
}

/// A second copy of a list of children.
fn copy_children(children: &Vec<MediaChild>) -> (r: Vec<MediaChild>)
    ensures
        child_views(r@) == child_views(children@),
{
    let mut out: Vec<MediaChild> = Vec::new();
    let mut i: usize = 0;
    while i < children.len()
        invariant
            i == out@.len() <= children@.len(),
            forall|k: int| 0 <= k < i ==> (#[trigger] out@[k])@ == children@[k]@,
        decreases children.len() - i,
    {
        out.push(children[i].clone());
        i += 1;
    }
    assert(child_views(out@) == child_views(children@));
    out
}

/// `first` where there is one, `second` otherwise.
pub open spec fn either(first: Option<Seq<char>>, second: Option<Seq<char>>) -> Option<Seq<char>> {
    match first {
        Some(s) => Some(s),
        None => second,
    }
}

/// The picture that stands for a child: the preview of a video, else the picture itself or,
/// without one, the preview.
pub open spec fn child_image(child: MediaChildView) -> Option<Seq<char>> {
    if child.media_type == VIDEO@ {
        child.thumbnail_url
    } else {
        either(child.media_url, child.thumbnail_url)
    }
}

/// The picture that stands for a post: the preview of a video, the first child's picture of
/// an album with children, else the picture itself or, without one, the preview.
pub open spec fn post_image(post: MediaView) -> Option<Seq<char>> {
    if post.media_type == VIDEO@ {
        post.thumbnail_url
    } else if post.media_type == CAROUSEL_ALBUM@ && post.children.len() > 0 {
        child_image(post.children[0])
    } else {
        either(post.media_url, post.thumbnail_url)
    }
}

/// `first` where there is one, `second` otherwise.
fn first_of(first: &Option<String>, second: &Option<String>) -> (r: Option<String>)
    ensures
        crate::text::opt_text(r) == either(
            crate::text::opt_text(*first),
            crate::text::opt_text(*second),
        ),
{
    match first {
        Some(s) => Some(s.clone()),
        None => copy_opt(second),
    }
}

/// The picture that stands for a child.
pub fn child_image_url(child: &MediaChild) -> (r: Option<String>)
    ensures
        crate::text::opt_text(r) == child_image(child@),
{
    if same_text(child.media_type.as_str(), VIDEO) {
        copy_opt(&child.thumbnail_url)
    } else {
        first_of(&child.media_url, &child.thumbnail_url)
    }
}

/// The picture that stands for a post. A video's own URL is no picture, so its preview is
/// used; an album is shown by its first child.
pub fn primary_image_url(post: &Media) -> (r: Option<String>)
    ensures
        crate::text::opt_text(r) == post_image(post@),
{
    if same_text(post.media_type.as_str(), VIDEO) {
        copy_opt(&post.thumbnail_url)
    } else if same_text(post.media_type.as_str(), CAROUSEL_ALBUM) && post.children.len() > 0 {
        child_image_url(&post.children[0])
    } else {
        first_of(&post.media_url, &post.thumbnail_url)
    }
}

/// The caption as it is forwarded: trimmed, nothing where it is then empty, cut to
/// [`MAX_CAPTION_CHARS`].
pub open spec fn shown_caption(caption: Option<Seq<char>>) -> Option<Seq<char>> {
    match caption {
        Some(c) => if crate::text::trimmed(c).len() == 0 {
            None
        } else {
            Some(crate::text::truncated(crate::text::trimmed(c), MAX_CAPTION_CHARS as nat))
        },
        None => None,
    }
}

/// The remark on a post.
pub open spec fn post_note(post: MediaView) -> Seq<char> {
    if post.media_type == VIDEO@ {
        VIDEO_NOTE@
    } else if post.media_type == CAROUSEL_ALBUM@ && post.children.len() > 1 {
        ALBUM_NOTE_HEAD@ + crate::text::decimal(post.children.len()) + ALBUM_NOTE_TAIL@
    } else {
        PLAIN_NOTE@
    }
}

/// A blank line and `line`, or nothing.
pub open spec fn set_off(line: Option<Seq<char>>) -> Seq<Seq<char>> {
    match line {
        Some(l) => seq![Seq::<char>::empty(), l],
        None => Seq::<Seq<char>>::empty(),
    }
}

/// `line`, or nothing.
pub open spec fn one_line(line: Option<Seq<char>>) -> Seq<Seq<char>> {
    match line {
        Some(l) => seq![l],
        None => Seq::<Seq<char>>::empty(),
    }
}

/// The lines of the message for a post: header, caption, remark, page, picture.
pub open spec fn post_lines(post: MediaView) -> Seq<Seq<char>> {
    seq![HEADER_LINE@] + set_off(shown_caption(post.caption)) + set_off(Some(post_note(post)))
        + set_off(post.permalink) + one_line(post_image(post))
}

/// The message for a post.
pub open spec fn rendered(post: MediaView) -> Seq<char> {
    crate::text::joined(post_lines(post), "\n"@)
}

/// The remark on a post.
fn note_for(post: &Media) -> (r: String)
    ensures
        r@ == post_note(post@),
{
    if same_text(post.media_type.as_str(), VIDEO) {
        VIDEO_NOTE.to_owned()
    } else if same_text(post.media_type.as_str(), CAROUSEL_ALBUM) && post.children.len() > 1 {
        let mut note: String = ALBUM_NOTE_HEAD.to_owned();
        note.append(decimal_text(post.children.len() as u64).as_str());
        note.append(ALBUM_NOTE_TAIL);
        note
    } else {
        PLAIN_NOTE.to_owned()
    }
}

/// The message for a post. The picture's URL stands in the text, where Discord shows a
/// preview of it.
pub fn render_post(post: &Media) -> (r: String)
    ensures
        r@ == rendered(post@),
        post@.caption matches Some(caption) ==> ({
            let text = crate::text::trimmed(caption);
            &&& 0 < text.len() <= 1500 ==> contains_text(r@, text)
            &&& text.len() > 1500 ==> contains_text(r@, text.take(1500) + seq!['…'])
        }),
{
    proof {
        if let Some(caption) = post@.caption {
            if crate::text::trimmed(caption).len() > 0 {
                law_message_shows_the_whole_caption(post@, caption);
            }
        }
    }
    let mut lines: Vec<String> = Vec::new();
    let ghost none = Seq::<Seq<char>>::empty();
    assert(crate::text::texts(lines@) == none);
    push_line(&mut lines, HEADER_LINE.to_owned());
    if let Some(caption) = &post.caption {
        let caption: String = trim(caption.as_str());
        if !caption.as_str().is_empty() {
            push_line(&mut lines, String::new());
            push_line(&mut lines, truncate_chars(caption.as_str(), MAX_CAPTION_CHARS));
        }
    }
    assert(crate::text::texts(lines@) == seq![HEADER_LINE@] + set_off(shown_caption(post@.caption)));
    push_line(&mut lines, String::new());
    push_line(&mut lines, note_for(post));
    if let Some(permalink) = &post.permalink {
        push_line(&mut lines, String::new());
        push_line(&mut lines, permalink.clone());
    }
    if let Some(image) = primary_image_url(post) {
        push_line(&mut lines, image);
    }
    assert(crate::text::texts(lines@) == post_lines(post@));
    join(&lines, "\n")
}

/// Adds a line at the end.
fn push_line(lines: &mut Vec<String>, line: String)
    ensures
        crate::text::texts(final(lines)@) == crate::text::texts(old(lines)@).push(line@),
{
    lines.push(line);
    assert(crate::text::texts(lines@) == crate::text::texts(old(lines)@).push(line@));
}

/// `part` stands in `whole` from the position `at` on.
pub open spec fn stands_at(whole: Seq<char>, part: Seq<char>, at: int) -> bool {
    0 <= at && at + part.len() <= whole.len() && whole.subrange(at, at + part.len()) == part
}

/// `part` stands somewhere in `whole`.
pub open spec fn contains_text(whole: Seq<char>, part: Seq<char>) -> bool {
    exists|at: int| stands_at(whole, part, at)
}

proof fn lemma_joined_contains(lines: Seq<Seq<char>>, sep: Seq<char>, k: int)
    requires
        0 <= k < lines.len(),
    ensures
        contains_text(crate::text::joined(lines, sep), lines[k]),
    decreases lines.len(),
{
    let whole = crate::text::joined(lines, sep);
    let part = lines[k];
    if lines.len() == 1 {
        assert(whole.subrange(0, part.len() as int) == part);
        assert(stands_at(whole, part, 0));
    } else {
        let before = crate::text::joined(lines.drop_last(), sep);
        if k == lines.len() - 1 {
            let at: int = before.len() + sep.len() as int;
            assert(whole.subrange(at, at + part.len()) == part);
            assert(stands_at(whole, part, at));
        } else {
            lemma_joined_contains(lines.drop_last(), sep, k);
            assert(lines.drop_last()[k] == part);
            let at = choose|at: int| stands_at(before, part, at);
            assert(whole.subrange(at, at + part.len()) == before.subrange(at, at + part.len()));
            assert(stands_at(whole, part, at));
        }
    }
}

/// However long the caption is, the message carries the page of the post, the picture, the
/// remark and the forwarded caption whole.
pub proof fn law_message_carries_links(post: MediaView)
    ensures
        post.permalink matches Some(page) ==> contains_text(rendered(post), page),
        post_image(post) matches Some(image) ==> contains_text(rendered(post), image),
        contains_text(rendered(post), post_note(post)),
        shown_caption(post.caption) matches Some(caption) ==> contains_text(
            rendered(post),
            caption,
        ) && caption.len() <= MAX_CAPTION_CHARS + 1,
{
    let lines = post_lines(post);
    let start = 1 + set_off(shown_caption(post.caption)).len() as int;
    assert(lines[start + 1] == post_note(post));
    lemma_joined_contains(lines, "\n"@, start + 1);
    if let Some(page) = post.permalink {
        assert(lines[start + 3] == page);
        lemma_joined_contains(lines, "\n"@, start + 3);
    }
    if let Some(image) = post_image(post) {
        assert(lines[lines.len() - 1] == image);
        lemma_joined_contains(lines, "\n"@, lines.len() - 1);
    }
    if let Some(caption) = shown_caption(post.caption) {
        assert(lines[2] == caption);
        lemma_joined_contains(lines, "\n"@, 2);
    }
}

/// A video is never shown by its own URL, whatever that is.
pub proof fn law_video_is_shown_by_preview(post: MediaView, url: Option<Seq<char>>)
    requires
        post.media_type == VIDEO@,
    ensures
        post_image(post) == post.thumbnail_url,
        post_image(MediaView { media_url: url, ..post }) == post_image(post),
{
}

/// The characters of all lines.
pub open spec fn total_len(lines: Seq<Seq<char>>) -> nat
    decreases lines.len(),
{
    if lines.len() == 0 {
        0
    } else {
        total_len(lines.drop_last()) + lines.last().len()
    }
}

proof fn lemma_total_len_of_sum(a: Seq<Seq<char>>, b: Seq<Seq<char>>)
    ensures
        total_len(a + b) == total_len(a) + total_len(b),
    decreases b.len(),
{
    if b.len() == 0 {
        assert(a + b == a);
    } else {
        lemma_total_len_of_sum(a, b.drop_last());
        assert((a + b).drop_last() == a + b.drop_last());
    }
}

proof fn lemma_joined_len(lines: Seq<Seq<char>>, sep: Seq<char>)
    requires
        sep.len() == 1,
    ensures
        crate::text::joined(lines, sep).len() <= total_len(lines) + lines.len(),
    decreases lines.len(),
{
    if lines.len() > 0 {
        lemma_joined_len(lines.drop_last(), sep);
        if lines.len() == 1 {
            assert(total_len(lines.drop_last()) == 0);
        }
    }
}

spec fn ten_to(k: nat) -> nat
    decreases k,
{
    if k == 0 {
        1
    } else {
        10 * ten_to((k - 1) as nat)
    }
}

proof fn lemma_decimal_len(n: nat, k: nat)
    requires
        k > 0,
        n < ten_to(k),
    ensures
        crate::text::decimal(n).len() <= k,
    decreases k,
{
    if n >= 10 {
        if k == 1 {
            assert(ten_to(0) == 1);
        }
        lemma_decimal_len(n / 10, (k - 1) as nat);
    }
}

/// The length of an optional text, none counting as empty.
pub open spec fn opt_len(text: Option<Seq<char>>) -> nat {
    match text {
        Some(t) => t.len(),
        None => 0,
    }
}

/// A message leaves room for its links: besides the page and the picture it has at most
/// sixteen hundred characters, of the two thousand that one message may have.
pub proof fn law_message_leaves_room_for_links(post: MediaView)
    requires
        post.children.len() <= u64::MAX,
    ensures
        rendered(post).len() <= 1600 + opt_len(post.permalink) + opt_len(post_image(post)),
{
    reveal_strlit("📸 新規投稿を1件確認しました。");
    reveal_strlit("🎬 動画です。内容はリンク先でご確認ください。");
    reveal_strlit("🖼 写真");
    reveal_strlit("枚の投稿です。先頭の1枚のみ載せておきますね。");
    reveal_strlit("内容は以上です。共有しておきますね。");
    reveal_strlit("\n");
    reveal_with_fuel(ten_to, 21);
    lemma_decimal_len(post.children.len(), 20);
    assert(post_note(post).len() <= 50);
    let caption = shown_caption(post.caption);
    let head = seq![HEADER_LINE@];
    let note = set_off(Some(post_note(post)));
    let one = head + set_off(caption);
    let two = one + note;
    let three = two + set_off(post.permalink);
    lemma_total_len_of_sum(head, set_off(caption));
    lemma_total_len_of_sum(one, note);
    lemma_total_len_of_sum(two, set_off(post.permalink));
    lemma_total_len_of_sum(three, one_line(post_image(post)));
    reveal_with_fuel(total_len, 3);
    assert(total_len(head) == HEADER_LINE@.len());
    assert(opt_len(caption) <= MAX_CAPTION_CHARS + 1);
    lemma_set_off_len(caption);
    lemma_set_off_len(Some(post_note(post)));
    lemma_set_off_len(post.permalink);
    lemma_set_off_len(post_image(post));
    lemma_joined_len(post_lines(post), "\n"@);
}

proof fn lemma_set_off_len(line: Option<Seq<char>>)
    ensures
        total_len(set_off(line)) == opt_len(line),
        total_len(one_line(line)) == opt_len(line),
        set_off(line).len() <= 2,
{
    if let Some(l) = line {
        let two = seq![Seq::<char>::empty(), l];
        assert(two.drop_last() == seq![Seq::<char>::empty()]);
        assert(seq![Seq::<char>::empty()].drop_last() == Seq::<Seq<char>>::empty());
        assert(seq![l].drop_last() == Seq::<Seq<char>>::empty());
        reveal_with_fuel(total_len, 3);
    }
}

/// The message shows the caption, without the white space at its ends: all of it up to fifteen
/// hundred characters, however many lines these are, and beyond that the first fifteen hundred
/// with an ellipsis behind them.
pub proof fn law_message_shows_the_whole_caption(post: MediaView, caption: Seq<char>)
    requires
        post.caption == Some(caption),
        crate::text::trimmed(caption).len() > 0,
    ensures
        crate::text::trimmed(caption).len() <= 1500 ==> contains_text(
            rendered(post),
            crate::text::trimmed(caption),
        ),
        crate::text::trimmed(caption).len() > 1500 ==> contains_text(
            rendered(post),
            crate::text::trimmed(caption).take(1500) + seq!['…'],
        ),
{
    law_message_carries_links(post);
    let text = crate::text::trimmed(caption);
    assert(text.take(1500) + seq!['…'] == text.take(1500).push('…'));
}

proof fn lemma_joined_set_off(lines: Seq<Seq<char>>, line: Option<Seq<char>>)
    requires
        lines.len() > 0,
    ensures
        crate::text::joined(lines + set_off(line), "\n"@) == crate::text::joined(lines, "\n"@) + (
        match line {
            Some(l) => seq!['\n', '\n'] + l,
            None => Seq::<char>::empty(),
        }),
        crate::text::joined(lines + one_line(line), "\n"@) == crate::text::joined(lines, "\n"@) + (
        match line {
            Some(l) => seq!['\n'] + l,
            None => Seq::<char>::empty(),
        }),
{
    reveal_strlit("\n");
    let before = crate::text::joined(lines, "\n"@);
    if let Some(l) = line {
        let blank = lines.push(Seq::<char>::empty());
        assert(blank.drop_last() == lines);
        assert(blank.push(l).drop_last() == blank);
        assert(lines.push(l).drop_last() == lines);
        assert(lines + set_off(line) == blank.push(l));
        assert(lines + one_line(line) == lines.push(l));
        assert(crate::text::joined(blank, "\n"@) == before + "\n"@ + Seq::<char>::empty());
        assert(crate::text::joined(blank.push(l), "\n"@) == crate::text::joined(blank, "\n"@)
            + "\n"@ + l);
        assert(before + "\n"@ + Seq::<char>::empty() + "\n"@ + l == before + (seq!['\n', '\n'] + l));
        assert(before + "\n"@ + l == before + (seq!['\n'] + l));
    } else {
        assert(lines + set_off(line) == lines);
        assert(lines + one_line(line) == lines);
        assert(before + Seq::<char>::empty() == before);
    }
}

/// `sep` and the text behind it, or nothing where there is no text.
pub open spec fn behind(sep: Seq<char>, text: Option<Seq<char>>) -> Seq<char> {
    match text {
        Some(t) => sep + t,
        None => Seq::<char>::empty(),
    }
}

/// The message of a post is, in this order and with nothing else: the header, a blank line and
/// the caption where one is shown, a blank line and the remark, a blank line and the page where
/// there is one, and the picture on a line of its own where there is one.
pub proof fn law_message_is_made_of_its_parts(post: MediaView)
    ensures
        rendered(post) == "📸 新規投稿を1件確認しました。"@ + behind(
            seq!['\n', '\n'],
            shown_caption(post.caption),
        ) + seq!['\n', '\n'] + post_note(post) + behind(seq!['\n', '\n'], post.permalink) + behind(
            seq!['\n'],
            post_image(post),
        ),
{
    let head = seq!["📸 新規投稿を1件確認しました。"@];
    let one = head + set_off(shown_caption(post.caption));
    let two = one + set_off(Some(post_note(post)));
    let three = two + set_off(post.permalink);
    lemma_joined_set_off(head, shown_caption(post.caption));
    lemma_joined_set_off(one, Some(post_note(post)));
    lemma_joined_set_off(two, post.permalink);
    lemma_joined_set_off(three, post_image(post));
    let sofar = crate::text::joined(one, "\n"@);
    assert(sofar + (seq!['\n', '\n'] + post_note(post)) == sofar + seq!['\n', '\n'] + post_note(
        post,
    ));
    assert(rendered(post) == "📸 新規投稿を1件確認しました。"@ + behind(
        seq!['\n', '\n'],
        shown_caption(post.caption),
    ) + seq!['\n', '\n'] + post_note(post) + behind(seq!['\n', '\n'], post.permalink) + behind(
        seq!['\n'],
        post_image(post),
    ));
}

/// A caption is shown exactly where it holds something besides white space.
pub proof fn law_blank_caption_is_not_shown(caption: Seq<char>)
    ensures
        shown_caption(None) is None,
        shown_caption(Some(caption)) is Some <==> exists|k: int|
            0 <= k < caption.len() && !crate::text::is_white_space(#[trigger] caption[k]),
        shown_caption(Some(caption)) matches Some(shown) ==> crate::text::trimmed(caption).len()
            <= 1500 && shown == crate::text::trimmed(caption) || (crate::text::trimmed(
            caption,
        ).len() > 1500 && shown.len() == 1501 && shown.last() == '…' && shown.take(1500)
            == crate::text::trimmed(caption).take(1500)),
{
    crate::text_laws::law_blank_is_all_white_space(caption);
    let text = crate::text::trimmed(caption);
    if text.len() > 1500 {
        assert(text.take(1500).push('…').take(1500) == text.take(1500));
    }
}

/// The remark on a post: a video is announced as one, an album of several pictures by their
/// number, and anything else, an album of one picture too, by the plain remark.
pub proof fn law_remark_tells_the_kind(post: MediaView)
    ensures
        post.media_type == "VIDEO"@ ==> post_note(post)
            == "🎬 動画です。内容はリンク先でご確認ください。"@,
        post.media_type == "CAROUSEL_ALBUM"@ && post.children.len() >= 2 ==> post_note(post)
            == "🖼 写真"@ + crate::text::decimal(post.children.len())
            + "枚の投稿です。先頭の1枚のみ載せておきますね。"@,
        post.media_type == "CAROUSEL_ALBUM"@ && post.children.len() < 2 ==> post_note(post)
            == "内容は以上です。共有しておきますね。"@,
        post.media_type != "VIDEO"@ && post.media_type != "CAROUSEL_ALBUM"@ ==> post_note(post)
            == "内容は以上です。共有しておきますね。"@,
{
    reveal_strlit("VIDEO");
    reveal_strlit("CAROUSEL_ALBUM");
    assert("VIDEO"@.len() != "CAROUSEL_ALBUM"@.len());
}

/// A post that is neither a video nor an album with children is shown by its own picture, and
/// by its preview only where it has none.
pub proof fn law_picture_is_shown_by_itself(post: MediaView)
    requires
        post.media_type != "VIDEO"@,
        post.media_type != "CAROUSEL_ALBUM"@ || post.children.len() == 0,
    ensures
        post.media_url is Some ==> post_image(post) == post.media_url,
        post.media_url is None ==> post_image(post) == post.thumbnail_url,
{
}

/// An album with children is shown by its first child alone: a video by its preview, anything
/// else by its own picture, and by its preview only where it has none.
pub proof fn law_album_is_shown_by_its_first_child(
    post: MediaView,
    rest: Seq<MediaChildView>,
    media_url: Option<Seq<char>>,
    thumbnail_url: Option<Seq<char>>,
)
    requires
        post.media_type == "CAROUSEL_ALBUM"@,
        post.children.len() > 0,
    ensures
        post.children[0].media_type == "VIDEO"@ ==> post_image(post)
            == post.children[0].thumbnail_url,
        post.children[0].media_type != "VIDEO"@ && post.children[0].media_url is Some
            ==> post_image(post) == post.children[0].media_url,
        post.children[0].media_type != "VIDEO"@ && post.children[0].media_url is None
            ==> post_image(post) == post.children[0].thumbnail_url,
        post_image(
            MediaView { children: seq![post.children[0]] + rest, media_url, thumbnail_url, ..post },
        ) == post_image(post),
{
    reveal_strlit("VIDEO");
    reveal_strlit("CAROUSEL_ALBUM");
    assert("VIDEO"@.len() != "CAROUSEL_ALBUM"@.len());
    assert((seq![post.children[0]] + rest)[0] == post.children[0]);
}

/// A child is shown by itself: a video by its preview, anything else by its own picture, and
/// by its preview only where it has none.
pub proof fn law_child_picture(child: MediaChildView)
    ensures
        child.media_type == "VIDEO"@ ==> child_image(child) == child.thumbnail_url,
        child.media_type != "VIDEO"@ && child.media_url is Some ==> child_image(child)
            == child.media_url,
        child.media_type != "VIDEO"@ && child.media_url is None ==> child_image(child)
            == child.thumbnail_url,
{
}

/// The view of a post holds each of its fields, and as many children, in their order.
pub proof fn law_post_view_is_faithful(post: Media, k: int)
    ensures
        post@.id == post.id@,
        post@.timestamp == post.timestamp@,
        post@.media_type == post.media_type@,
        post.media_url matches Some(s) ==> post@.media_url == Some(s@),
        post.media_url is None ==> post@.media_url is None,
        post.thumbnail_url matches Some(s) ==> post@.thumbnail_url == Some(s@),
        post.thumbnail_url is None ==> post@.thumbnail_url is None,
        post.permalink matches Some(s) ==> post@.permalink == Some(s@),
        post.permalink is None ==> post@.permalink is None,
        post.caption matches Some(s) ==> post@.caption == Some(s@),
        post.caption is None ==> post@.caption is None,
        post.username matches Some(s) ==> post@.username == Some(s@),
        post.username is None ==> post@.username is None,
        post@.children.len() == post.children@.len(),
        0 <= k < post.children@.len() ==> post@.children[k].media_type
            == post.children@[k].media_type@ && post@.children[k].media_url
            == crate::text::opt_text(post.children@[k].media_url) && post@.children[k].thumbnail_url
            == crate::text::opt_text(post.children@[k].thumbnail_url),
{
}

} // verus!
