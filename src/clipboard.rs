//! The synchronisation engine's decisions. One round of the polling loop
//! applies at most one outbound command, then probes the clipboard for text,
//! and for an image only when no text is there. The caller performs the
//! reads, the writes and the channel traffic; the engine decides.

use vstd::prelude::*;

use crate::content::{md5_of, png_decode, Content, ContentImage, ContentView, DecodeError, ImageView};

verus! {

/// What `String::from_utf8_lossy` makes of a byte sequence.
pub uninterp spec fn utf8_lossy(bytes: Seq<u8>) -> Seq<char>;

/// Relies on `String::from_utf8_lossy`: the text depends on the bytes alone.
#[verifier::external_body]
fn text_from_bytes(bytes: &[u8]) -> (r: String)
    ensures
        r@ == utf8_lossy(bytes@),
{
    String::from_utf8_lossy(bytes).into_owned()
}

/// The result of one bounded read of the clipboard for one type.
#[derive(Debug)]
pub enum Read {
    /// The clipboard held a value of the type (possibly empty).
    Value(Vec<u8>),
    /// The clipboard holds no value of the type.
    WrongType,
    /// The connection or the protocol failed.
    Failed,
}

pub ghost enum ReadView {
    Value(Seq<u8>),
    WrongType,
    Failed,
}

impl View for Read {
    type V = ReadView;

    open spec fn view(&self) -> ReadView {
        match self {
            Read::Value(b) => ReadView::Value(b@),
            Read::WrongType => ReadView::WrongType,
            Read::Failed => ReadView::Failed,
        }
    }
}

/// What the caller writes to the clipboard for an outbound command.
#[derive(Debug)]
pub enum Store {
    /// Text, stored as UTF-8.
    Text(String),
    /// Encoded image bytes, stored under the PNG type.
    Image(Vec<u8>),
}

pub ghost enum StoreView {
    Text(Seq<char>),
    Image(Seq<u8>),
}

impl View for Store {
    type V = StoreView;

    open spec fn view(&self) -> StoreView {
        match self {
            Store::Text(t) => StoreView::Text(t@),
            Store::Image(b) => StoreView::Image(b@),
        }
    }
}

/// What a probe of the clipboard decided.
#[derive(Debug)]
pub enum Probe {
    /// New content: send it on the inbound channel.
    Publish(Content),
    /// The value found is the one last seen.
    Unchanged,
    /// Nothing of this type is on the clipboard.
    Absent,
    /// New image bytes that do not decode: skip this round.
    Undecodable(DecodeError),
    /// The read failed: the loop ends.
    Failed,
}

pub ghost enum ProbeView {
    Publish(ContentView),
    Unchanged,
    Absent,
    Undecodable,
    Failed,
}

impl View for Probe {
    type V = ProbeView;

    open spec fn view(&self) -> ProbeView {
        match self {
            Probe::Publish(c) => ProbeView::Publish(c@),
            Probe::Unchanged => ProbeView::Unchanged,
            Probe::Absent => ProbeView::Absent,
            Probe::Undecodable(_) => ProbeView::Undecodable,
            Probe::Failed => ProbeView::Failed,
        }
    }
}

/// The engine's memory of the last text and the last image it saw or wrote.
pub ghost struct Snapshot {
    pub last_text: Option<Seq<char>>,
    pub last_image: Option<ImageView>,
}

/// The fingerprint of the last image.
pub open spec fn last_sum(s: Snapshot) -> Option<u128> {
    match s.last_image {
        Some(img) => Some(img.sum),
        None => None,
    }
}

/// The bytes a read found, if it found a non-empty value.
pub open spec fn found(read: ReadView) -> Option<Seq<u8>> {
    match read {
        ReadView::Value(b) => if b.len() > 0 {
            Some(b)
        } else {
            None
        },
        _ => None,
    }
}

/// What a probe decides when its read found nothing.
pub open spec fn nothing_found(read: ReadView) -> ProbeView {
    if read is Failed {
        ProbeView::Failed
    } else {
        ProbeView::Absent
    }
}

/// The image that valid PNG bytes stand for.
pub open spec fn image_of(b: Seq<u8>) -> ImageView {
    let d = png_decode(b)->Some_0;
    ImageView { raw: b, width: d.0, height: d.1, pixels: d.2, sum: md5_of(b) }
}

/// The snapshot after an outbound command was applied.
pub open spec fn after_outbound(s: Snapshot, c: ContentView) -> Snapshot {
    match c {
        ContentView::Text(t) => Snapshot { last_text: Some(t), ..s },
        ContentView::Image(img) => Snapshot { last_image: Some(img), ..s },
    }
}

/// What is written to the clipboard for an outbound command.
pub open spec fn store_for(c: ContentView) -> StoreView {
    match c {
        ContentView::Text(t) => StoreView::Text(t),
        ContentView::Image(img) => StoreView::Image(img.raw),
    }
}

/// The snapshot after an optional outbound command.
pub open spec fn with_outbound(s: Snapshot, c: Option<ContentView>) -> Snapshot {
    match c {
        Some(c) => after_outbound(s, c),
        None => s,
    }
}

/// A text probe: text other than the last text is published and
/// remembered; the same text again is unchanged.
pub open spec fn text_step(s: Snapshot, read: ReadView) -> (Snapshot, ProbeView) {
    match found(read) {
        None => (s, nothing_found(read)),
        Some(b) => if s.last_text == Some(utf8_lossy(b)) {
            (s, ProbeView::Unchanged)
        } else {
            (
                Snapshot { last_text: Some(utf8_lossy(b)), ..s },
                ProbeView::Publish(ContentView::Text(utf8_lossy(b))),
            )
        },
    }
}

/// An image probe: bytes with the last fingerprint are unchanged; other
/// bytes are published and remembered when they decode, and skipped when
/// they do not.
pub open spec fn image_step(s: Snapshot, read: ReadView) -> (Snapshot, ProbeView) {
    match found(read) {
        None => (s, nothing_found(read)),
        Some(b) => if last_sum(s) == Some(md5_of(b)) {
            (s, ProbeView::Unchanged)
        } else if png_decode(b) is None {
            (s, ProbeView::Undecodable)
        } else {
            (
                Snapshot { last_image: Some(image_of(b)), ..s },
                ProbeView::Publish(ContentView::Image(image_of(b))),
            )
        },
    }
}

/// One round: the outbound command, if any, then the text probe, then the
/// image probe only when the text probe found nothing.
pub open spec fn round(s: Snapshot, outbound: Option<ContentView>, text: ReadView, image: ReadView) -> (Snapshot, ProbeView) {
    let t = text_step(with_outbound(s, outbound), text);
    if t.1 is Absent {
        image_step(t.0, image)
    } else {
        t
    }
}

/// The view of an optional content.
pub open spec fn outbound_view(c: Option<Content>) -> Option<ContentView> {
    match c {
        Some(c) => Some(c@),
        None => None,
    }
}

/// The synchronisation engine: the last text and image it saw or wrote.
pub struct Clipboard {
    last_text: Option<String>,
    last_image: Option<ContentImage>,
}

impl View for Clipboard {
    type V = Snapshot;

    closed spec fn view(&self) -> Snapshot {
        Snapshot {
            last_text: match self.last_text {
                Some(t) => Some(t@),
                None => None,
            },
            last_image: match self.last_image {
                Some(img) => Some(img@),
                None => None,
            },
        }
    }
}

impl Clipboard {
    /// An engine that has seen nothing yet.
    pub fn new() -> (r: Clipboard)
        ensures
            r@ == (Snapshot { last_text: None, last_image: None }),
    {
        Clipboard { last_text: None, last_image: None }
    }

    /// Applies a command from the outbound channel: remembers the content, so
    /// that reading it back is not news, and says what to write.
    pub fn apply_outbound(&mut self, content: Content) -> (w: Store)
        ensures
            final(self)@ == after_outbound(old(self)@, content@),
            w@ == store_for(content@),
    {
        match content {
            Content::Text(text) => {
                let stored = text.clone();
                self.last_text = Some(text);
                Store::Text(stored)
            },
            Content::Image(img) => {
                let raw = img.raw.clone();
                assert(raw@ =~= img.raw@);
                self.last_image = Some(img);
                Store::Image(raw)
            },
        }
    }

    /// Decides on the result of reading text from the clipboard.
    pub fn probe_text(&mut self, read: Read) -> (r: Probe)
        ensures
            (final(self)@, r@) == text_step(old(self)@, read@),
    {
        match read {
            Read::Failed => Probe::Failed,
            Read::WrongType => Probe::Absent,
            Read::Value(bytes) => {
                if bytes.len() == 0 {
                    return Probe::Absent;
                }
                let text = text_from_bytes(bytes.as_slice());
                let is_new = match &self.last_text {
                    Some(last) => *last != text,
                    None => true,
                };
                if is_new {
                    self.last_text = Some(text.clone());
                    Probe::Publish(Content::Text(text))
                } else {
                    Probe::Unchanged
                }
            },
        }
    }

    /// Decides on the result of reading an image from the clipboard.
    pub fn probe_image(&mut self, read: Read) -> (r: Probe)
        ensures
            (final(self)@, r@) == image_step(old(self)@, read@),
    {
        match read {
            Read::Failed => Probe::Failed,
            Read::WrongType => Probe::Absent,
            Read::Value(bytes) => {
                if bytes.len() == 0 {
                    return Probe::Absent;
                }
                let sum = crate::content::fingerprint(bytes.as_slice());
                let is_new = match &self.last_image {
                    Some(last) => last.sum != sum,
                    None => true,
                };
                if !is_new {
                    return Probe::Unchanged;
                }
                let ghost b = bytes@;
                match ContentImage::decode(bytes) {
                    Ok(img) => {
                        assert(img@ == image_of(b));
                        self.last_image = Some(img.duplicate());
                        Probe::Publish(Content::Image(img))
                    },
                    Err(err) => Probe::Undecodable(err),
                }
            },
        }
    }

    /// Runs one round: hands the outbound command's write, if there is a
    /// command, to `store`; reads text with `read_text`; reads an image with
    /// `read_image` only when no text was found. What the reads return
    /// decides the outcome, as `round` says.
    pub fn poll<S, T, I>(
        &mut self,
        outbound: Option<Content>,
        store: S,
        read_text: T,
        read_image: I,
    ) -> (r: Probe) where S: FnOnce(Store), T: FnOnce() -> Read, I: FnOnce() -> Read
        requires
            forall|w: Store| store.requires((w,)),
            read_text.requires(()),
            read_image.requires(()),
        ensures
            outbound matches Some(c) ==> exists|w: Store| #[trigger]
                store.ensures((w,), ()) && w@ == store_for(c@),
            exists|t: Read| #[trigger]
                read_text.ensures((), t) && if text_step(
                    with_outbound(old(self)@, outbound_view(outbound)),
                    t@,
                ).1 is Absent {
                    exists|i: Read| #[trigger]
                        read_image.ensures((), i) && (final(self)@, r@) == round(
                            old(self)@,
                            outbound_view(outbound),
                            t@,
                            i@,
                        )
                } else {
                    forall|i: ReadView| (final(self)@, r@) == #[trigger] round(
                        old(self)@,
                        outbound_view(outbound),
                        t@,
                        i,
                    )
                },
    {
        let ghost o = outbound_view(outbound);
        match outbound {
            Some(content) => {
                let w = self.apply_outbound(content);
                store(w);
            },
            None => {},
        }
        let ghost s1 = self@;
        assert(s1 == with_outbound(old(self)@, o));
        let t = read_text();
        let ghost tv = t@;
        let probe = self.probe_text(t);
        if matches!(probe, Probe::Absent) {
            let i = read_image();
            let ghost iv = i@;
            let r = self.probe_image(i);
            assert(read_image.ensures((), i));
            assert((self@, r@) == round(old(self)@, o, tv, iv));
            r
        } else {
            assert(forall|iv: ReadView| (self@, probe@) == #[trigger] round(old(self)@, o, tv, iv));
            probe
        }
    }
}

/// Probing an unchanged clipboard again publishes nothing: after one round,
/// a second round with the same reads and no command publishes nothing and
/// leaves the snapshot as the first left it. So new content is published
/// once, on first sight.
pub proof fn lemma_reread(s: Snapshot, text: ReadView, image: ReadView)
    ensures
        !(round(round(s, None, text, image).0, None, text, image).1 is Publish),
        round(round(s, None, text, image).0, None, text, image).0 == round(
            s,
            None,
            text,
            image,
        ).0,
{
}

/// Text that the engine wrote itself is not announced when it is read back
/// in the same round, nor the snapshot changed by reading it.
pub proof fn lemma_no_echo_text(s: Snapshot, text: Seq<char>, bytes: Seq<u8>, image: ReadView)
    requires
        bytes.len() > 0,
        utf8_lossy(bytes) == text,
    ensures
        round(s, Some(ContentView::Text(text)), ReadView::Value(bytes), image) == (
            after_outbound(s, ContentView::Text(text)),
            ProbeView::Unchanged,
        ),
{
}

/// An image that the engine wrote itself is not announced when its bytes
/// are read back in the same round, nor the snapshot changed by reading it.
pub proof fn lemma_no_echo_image(s: Snapshot, img: ContentImage, text: ReadView)
    requires
        img.wf(),
        img.raw@.len() > 0,
        found(text) is None,
        !(text is Failed),
    ensures
        round(s, Some(ContentView::Image(img@)), text, ReadView::Value(img.raw@)) == (
            after_outbound(s, ContentView::Image(img@)),
            ProbeView::Unchanged,
        ),
{
}

/// Text comes first: when the text read found text, changed or not, the
/// round's outcome does not depend on the image read, and no image is
/// published.
pub proof fn lemma_text_priority(
    s: Snapshot,
    outbound: Option<ContentView>,
    text: ReadView,
    image1: ReadView,
    image2: ReadView,
)
    requires
        found(text) is Some,
    ensures
        round(s, outbound, text, image1) == round(s, outbound, text, image2),
        !(round(s, outbound, text, image1).1 matches ProbeView::Publish(ContentView::Image(_))),
        round(s, outbound, text, image1).0.last_image == with_outbound(s, outbound).last_image,
{
}

/// Images are told apart by fingerprint alone: bytes with the last
/// fingerprint are not news, and bytes with another fingerprint that decode
/// are published.
pub proof fn lemma_fingerprint_dedup(s: Snapshot, last: Seq<u8>, bytes: Seq<u8>)
    requires
        last_sum(s) == Some(md5_of(last)),
        bytes.len() > 0,
    ensures
        bytes == last ==> md5_of(bytes) == md5_of(last) && image_step(
            s,
            ReadView::Value(bytes),
        ) == (s, ProbeView::Unchanged),
        md5_of(bytes) != md5_of(last) && png_decode(bytes) is Some ==> image_step(
            s,
            ReadView::Value(bytes),
        ).1 == ProbeView::Publish(ContentView::Image(image_of(bytes))),
{
}

/// Bytes that do not decode publish nothing and leave the snapshot as it
/// was, so a valid image that follows is still news.
pub proof fn lemma_decode_failure_isolated(s: Snapshot, bad: Seq<u8>, good: Seq<u8>)
    requires
        bad.len() > 0,
        good.len() > 0,
        png_decode(bad) is None,
        png_decode(good) is Some,
        last_sum(s) != Some(md5_of(good)),
    ensures
        image_step(s, ReadView::Value(bad)).0 == s,
        !(image_step(s, ReadView::Value(bad)).1 is Publish),
        image_step(image_step(s, ReadView::Value(bad)).0, ReadView::Value(good)).1
            == ProbeView::Publish(ContentView::Image(image_of(good))),
{
}

} // verus!
