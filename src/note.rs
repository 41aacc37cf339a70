//! Translation of a note into an embed message.
use crate::dedup::{after_insert, insert_report, DedupCache, DedupKey, Freshness};
use crate::model::{
    Embed, EmbedAuthor, EmbedImage, EmbedView, OutboundMessage, OutboundView, SourceAttachment,
    SourceNote, SourceUser, user_mention,
};
use vstd::prelude::*;
use vstd::string::*;

verus! {

/// Media types shown as the embed's image.
pub open spec fn is_embeddable_image(t: Seq<char>) -> bool {
    t == "image/jpeg"@ || t == "image/png"@ || t == "image/gif"@ || t == "image/webp"@
}

/// The URL of the first attachment, in order, whose media type is shown as
/// an image; `None` when there is none.
pub open spec fn first_image(atts: Seq<SourceAttachment>) -> Option<Seq<char>>
    decreases atts.len(),
{
    if atts.len() == 0 {
        None
    } else if is_embeddable_image(atts[0].media_type@) {
        Some(atts[0].url@)
    } else {
        first_image(atts.drop_first())
    }
}

/// `"{display name or handle} (@{handle})"`.
pub open spec fn note_title(u: SourceUser) -> Seq<char> {
    let shown = match u.display_name {
        Some(n) => n@,
        None => u.handle@,
    };
    shown + " (@"@ + u.handle@ + ")"@
}

/// The note's text, or `(no content)` where it has none.
pub open spec fn note_description(text: Option<String>) -> Seq<char> {
    match text {
        Some(t) => t@,
        None => "(no content)"@,
    }
}

/// The author's profile page on the origin server.
pub open spec fn author_page(origin: Seq<char>, u: SourceUser) -> Seq<char> {
    origin + "/"@ + user_mention(u)
}

/// The embed that stands for `note` from the origin server `origin`.
pub open spec fn note_embed(note: SourceNote, origin: Seq<char>) -> EmbedView {
    EmbedView {
        title: note_title(note.author),
        description: note_description(note.text),
        url: origin + "/notes/"@ + note.id@,
        timestamp: note.created_at,
        author_name: "@"@ + note.author.handle@,
        author_url: author_page(origin, note.author),
        author_icon_url: note.author.avatar_url@,
        image_url: first_image(note.attachments@),
    }
}

/// The message that carries `note` as its one embed.
pub open spec fn note_message(note: SourceNote, origin: Seq<char>) -> OutboundView {
    OutboundView { embeds: seq![note_embed(note, origin)], content: None }
}

/// A note none of whose attachments has an image type gets no image.
pub proof fn lemma_no_match_no_image(atts: Seq<SourceAttachment>)
    requires
        forall|i: int| 0 <= i < atts.len() ==> !is_embeddable_image(#[trigger] atts[i].media_type@),
    ensures
        first_image(atts) is None,
    decreases atts.len(),
{
    if atts.len() > 0 {
        assert(!is_embeddable_image(atts[0].media_type@));
        let rest = atts.drop_first();
        assert forall|i: int| 0 <= i < rest.len() implies !is_embeddable_image(#[trigger] rest[i].media_type@) by {
            assert(rest[i] == atts[i + 1]);
        }
        lemma_no_match_no_image(rest);
    }
}

/// Whether attachments of this media type are shown as the embed's image.
pub fn is_image_type(media_type: &str) -> (r: bool)
    ensures
        r == is_embeddable_image(media_type@),
{
    let t = String::from_str(media_type);
    t == String::from_str("image/jpeg") || t == String::from_str("image/png")
        || t == String::from_str("image/gif") || t == String::from_str("image/webp")
}

/// The image of the first attachment, in order, with an image media type.
pub fn select_image(attachments: &Vec<SourceAttachment>) -> (r: Option<EmbedImage>)
    ensures
        match r {
            Some(i) => first_image(attachments@) == Some(i.url@),
            None => first_image(attachments@) is None,
        },
{
    let mut i: usize = 0;
    assert(attachments@.subrange(0, attachments@.len() as int) == attachments@);
    while i < attachments.len()
        invariant
            i <= attachments@.len(),
            first_image(attachments@.subrange(i as int, attachments@.len() as int))
                == first_image(attachments@),
        decreases attachments.len() - i,
    {
        let ghost rest = attachments@.subrange(i as int, attachments@.len() as int);
        assert(rest[0] == attachments@[i as int]);
        if is_image_type(attachments[i].media_type.as_str()) {
            return Some(EmbedImage { url: attachments[i].url.clone() });
        }
        assert(rest.drop_first() == attachments@.subrange(i + 1, attachments@.len() as int));
        i = i + 1;
    }
    None
}

/// `@handle`, or `@handle@host` for a remote user.
pub fn mention(u: &SourceUser) -> (r: String)
    ensures
        r@ == user_mention(*u),
{
    let s = String::from_str("@").concat(u.handle.as_str());
    match &u.host {
        None => s,
        Some(h) => s.concat("@").concat(h.as_str()),
    }
}

/// Builds the embed that stands for `note` from the origin server `origin`.
pub fn translate_note(note: &SourceNote, origin: &str) -> (r: Embed)
    ensures
        r@ == note_embed(*note, origin@),
{
    let u = &note.author;
    let shown = match &u.display_name {
        Some(n) => n.as_str(),
        None => u.handle.as_str(),
    };
    let title = String::from_str(shown).concat(" (@").concat(u.handle.as_str()).concat(")");
    let description = match &note.text {
        Some(t) => t.clone(),
        None => String::from_str("(no content)"),
    };
    let url = String::from_str(origin).concat("/notes/").concat(note.id.as_str());
    let author_url = String::from_str(origin).concat("/").concat(mention(u).as_str());
    let image = select_image(&note.attachments);
    Embed {
        title,
        description,
        url,
        timestamp: note.created_at,
        author: EmbedAuthor {
            name: String::from_str("@").concat(u.handle.as_str()),
            url: author_url,
            icon_url: u.avatar_url.clone(),
        },
        image,
    }
}

/// What to do with a note event once it is classified and parsed.
#[derive(Debug)]
pub enum NoteAction {
    /// The note was already delivered to this destination: send nothing.
    Skip,
    /// Send this message.
    Send(OutboundMessage),
}

/// Records the note in the cache and decides whether to send it: a note
/// already held for this destination and origin is skipped, any other is
/// sent as its embed message.
pub fn prepare_note(
    cache: &mut DedupCache,
    destination_id: u64,
    origin: &str,
    note: &SourceNote,
) -> (r: NoteAction)
    requires
        old(cache).wf(),
    ensures
        final(cache).wf(),
        final(cache).capacity() == old(cache).capacity(),
        final(cache).order() == after_insert(
            old(cache).order(),
            old(cache).capacity(),
            (destination_id, origin@, note.id@),
        ),
        match r {
            NoteAction::Skip => insert_report(old(cache).order(), (destination_id, origin@, note.id@))
                == Freshness::Duplicate,
            NoteAction::Send(m) => {
                &&& insert_report(old(cache).order(), (destination_id, origin@, note.id@))
                    == Freshness::Fresh
                &&& m@ == note_message(*note, origin@)
            },
        },
{
    let key = DedupKey {
        destination_id,
        origin_server: String::from_str(origin),
        note_id: note.id.clone(),
    };
    match cache.check_and_insert(&key) {
        Freshness::Duplicate => NoteAction::Skip,
        Freshness::Fresh => {
            let embed = translate_note(note, origin);
            let embeds = vec![embed];
            let m = OutboundMessage { embeds, content: None };
            assert(m@.embeds == seq![note_embed(*note, origin@)]);
            NoteAction::Send(m)
        },
    }
}

} // verus!
