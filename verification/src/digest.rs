//! The content digest of a demo: the MD5 of its bytes, as the catalog
//! records it.
//!
//! The digest is accumulated piece by piece, so a file of any size passes
//! through one buffer. However the content is cut into pieces, the digest is
//! that of the whole content.

use vstd::prelude::*;
use vstd::slice::slice_subrange;

verus! {

/// Number of bytes in a digest.
pub const DIGEST_LEN: usize = 16;

/// Number of bytes a file is read through at a time.
pub const CHUNK_SIZE: usize = 1048576;

/// `md5::Context`, a digest in the making. Nothing of its inside is known
/// here; what is said of it is said through [`consumed`].
#[verifier::external_type_specification]
#[verifier::external_body]
pub struct ExContext(md5::Context);

/// The MD5 digest of `message`, as `md5::Context::finalize` returns it for a
/// context that has consumed exactly `message`. The algorithm is not written
/// out here; the digest is only known to depend on the message alone.
pub uninterp spec fn md5_of(message: Seq<u8>) -> Seq<u8>;

/// The message held by a context: every byte handed to `consume` since the
/// context was made, in order. The context keeps a running state of it, not
/// the bytes themselves.
pub uninterp spec fn consumed(context: md5::Context) -> Seq<u8>;

/// `md5::Context::new`: a context that has consumed nothing.
#[verifier::external_body]
fn context_new() -> (context: md5::Context)
    ensures
        consumed(context) == Seq::<u8>::empty(),
{
    md5::Context::new()
}

/// `md5::Context::consume`: the bytes of `data` are added behind what the
/// context had consumed before.
#[verifier::external_body]
fn context_consume(context: &mut md5::Context, data: &[u8])
    ensures
        consumed(*final(context)) == consumed(*old(context)) + data@,
{
    context.consume(data);
}

/// `md5::Context::finalize`: the digest of everything the context has
/// consumed, as its sixteen bytes.
#[verifier::external_body]
fn context_finalize(context: md5::Context) -> (digest: [u8; 16])
    ensures
        digest@ == md5_of(consumed(context)),
{
    context.finalize().0
}

/// A digest in the making. Its view is the content taken in so far.
pub struct Digester {
    context: md5::Context,
}

impl View for Digester {
    type V = Seq<u8>;

    closed spec fn view(&self) -> Seq<u8> {
        consumed(self.context)
    }
}

impl Digester {
    /// A digester that has taken in nothing.
    pub fn new() -> (digester: Digester)
        ensures
            digester@ == Seq::<u8>::empty(),
    {
        Digester { context: context_new() }
    }

    /// Takes in the next piece of content, as one read of the file returned
    /// it. An empty piece is the end of the file: the result says whether
    /// there is more to read.
    pub fn update(&mut self, chunk: &[u8]) -> (more: bool)
        ensures
            final(self)@ == old(self)@ + chunk@,
            more == (chunk@.len() > 0),
    {
        if chunk.len() == 0 {
            assert(self@ + chunk@ =~= self@);
            false
        } else {
            context_consume(&mut self.context, chunk);
            true
        }
    }

    /// The digest of the content taken in.
    pub fn finish(self) -> (digest: [u8; 16])
        ensures
            digest@ == md5_of(self@),
            digest@.len() == DIGEST_LEN,
    {
        context_finalize(self.context)
    }
}

/// The pieces in which `content` comes when it is read through a buffer of
/// `buffer_len` bytes: each fills the buffer but the last, which holds what
/// is left.
pub open spec fn pieces(content: Seq<u8>, buffer_len: nat) -> Seq<Seq<u8>>
    decreases content.len(),
{
    if buffer_len == 0 || content.len() == 0 {
        Seq::empty()
    } else if content.len() <= buffer_len {
        seq![content]
    } else {
        seq![content.subrange(0, buffer_len as int)] + pieces(
            content.subrange(buffer_len as int, content.len() as int),
            buffer_len,
        )
    }
}

/// What a digester holds once it has taken in `chunks` in turn.
pub open spec fn taken_in(chunks: Seq<Seq<u8>>) -> Seq<u8>
    decreases chunks.len(),
{
    if chunks.len() == 0 {
        Seq::empty()
    } else {
        taken_in(chunks.drop_last()) + chunks.last()
    }
}

/// Taking in `first` and then `rest` gives `first` followed by what `rest`
/// alone gives.
proof fn lemma_taken_in_front(first: Seq<u8>, rest: Seq<Seq<u8>>)
    ensures
        taken_in(seq![first] + rest) == first + taken_in(rest),
    decreases rest.len(),
{
    let all = seq![first] + rest;
    if rest.len() == 0 {
        assert(all.drop_last() =~= rest);
        assert(all.last() == first);
        assert(taken_in(rest) =~= Seq::<u8>::empty());
        assert(taken_in(all) =~= first + taken_in(rest));
    } else {
        lemma_taken_in_front(first, rest.drop_last());
        assert(all.drop_last() =~= seq![first] + rest.drop_last());
        assert(all.last() == rest.last());
        assert(taken_in(all) =~= first + taken_in(rest));
    }
}

/// The pieces of a content, taken in in turn, are the content again,
/// whatever the size of the buffer.
pub proof fn lemma_pieces_make_the_content(content: Seq<u8>, buffer_len: nat)
    requires
        buffer_len > 0,
    ensures
        taken_in(pieces(content, buffer_len)) == content,
    decreases content.len(),
{
    if content.len() == 0 {
        assert(taken_in(pieces(content, buffer_len)) =~= content);
    } else if content.len() <= buffer_len {
        lemma_taken_in_front(content, Seq::empty());
        assert(seq![content] + Seq::<Seq<u8>>::empty() =~= seq![content]);
        assert(content + taken_in(Seq::<Seq<u8>>::empty()) =~= content);
    } else {
        let head = content.subrange(0, buffer_len as int);
        let tail = content.subrange(buffer_len as int, content.len() as int);
        lemma_pieces_make_the_content(tail, buffer_len);
        lemma_taken_in_front(head, pieces(tail, buffer_len));
        assert(head + tail =~= content);
    }
}

/// The digest of a content does not depend on the size of the buffer that
/// the content is read through: read through any two buffers, and any
/// number of times, it is the digest of the content as a whole.
pub proof fn lemma_digest_ignores_buffer(content: Seq<u8>, one_len: nat, other_len: nat)
    requires
        one_len > 0,
        other_len > 0,
    ensures
        md5_of(taken_in(pieces(content, one_len))) == md5_of(content),
        md5_of(taken_in(pieces(content, one_len))) == md5_of(
            taken_in(pieces(content, other_len)),
        ),
{
    lemma_pieces_make_the_content(content, one_len);
    lemma_pieces_make_the_content(content, other_len);
}

/// The digest of `content`, read through a buffer of `buffer_len` bytes.
/// The size of the buffer does not show in the result.
pub fn digest_bytes(content: &[u8], buffer_len: usize) -> (digest: [u8; 16])
    requires
        buffer_len > 0,
    ensures
        digest@ == md5_of(content@),
        digest@ == md5_of(taken_in(pieces(content@, buffer_len as nat))),
        digest@.len() == DIGEST_LEN,
{
    proof {
        lemma_pieces_make_the_content(content@, buffer_len as nat);
    }
    let mut digester = Digester::new();
    let mut read: usize = 0;
    loop
        invariant
            buffer_len > 0,
            read <= content@.len(),
            digester@ == content@.subrange(0, read as int),
        ensures
            digester@ == content@,
        decreases content@.len() - read,
    {
        let left: usize = content.len() - read;
        let take: usize = if left < buffer_len { left } else { buffer_len };
        let chunk = slice_subrange(content, read, read + take);
        let more = digester.update(chunk);
        assert(content@.subrange(0, read as int) + chunk@ =~= content@.subrange(
            0,
            read + take,
        ));
        read = read + take;
        if !more {
            assert(content@.subrange(0, read as int) =~= content@);
            break;
        }
    }
    digester.finish()
}

/// Whether two digests are the same, byte for byte.
pub fn same_digest(left: &[u8; 16], right: &[u8; 16]) -> (same: bool)
    ensures
        same == (left@ == right@),
{
    let mut i: usize = 0;
    while i < 16
        invariant
            i <= 16,
            forall|j: int| 0 <= j < i ==> left@[j] == right@[j],
        decreases 16 - i,
    {
        if left[i] != right[i] {
            return false;
        }
        i = i + 1;
    }
    assert(left@ =~= right@);
    true
}

} // verus!
