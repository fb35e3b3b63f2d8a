//! Identifiers that tag each request sent on the command socket, so that
//! the reply can be matched with it.
use vstd::prelude::*;
use vstd::string::*;

verus! {

/// Number of random characters after the tag.
pub const ID_SUFFIX_LEN: usize = 6;

pub open spec fn is_ascii_alphanumeric(c: char) -> bool {
    ('0' <= c && c <= '9') || ('A' <= c && c <= 'Z') || ('a' <= c && c <= 'z')
}

/// `id` is `tag`, a `-`, and six ASCII letters or digits.
pub open spec fn is_tagged_id(tag: Seq<char>, id: Seq<char>) -> bool {
    &&& id.len() == tag.len() + 1 + ID_SUFFIX_LEN
    &&& id.subrange(0, tag.len() as int) == tag
    &&& id[tag.len() as int] == '-'
    &&& forall|i: int| tag.len() + 1 <= i < id.len() ==> is_ascii_alphanumeric(#[trigger] id[i])
}

/// A letter or digit drawn by `rand`'s thread-local generator from the
/// `Alphanumeric` distribution, as a `char`.
#[verifier::external_body]
fn random_alphanumeric() -> (c: char)
    ensures
        is_ascii_alphanumeric(c),
{
    rand::Rng::sample(&mut rand::thread_rng(), rand::distributions::Alphanumeric) as char
}

/// `String::push`: appends `c` to `s`.
#[verifier::external_body]
fn push_char(s: &mut String, c: char)
    ensures
        final(s)@ == old(s)@.push(c),
{
    s.push(c);
}

/// `tag`, a `-`, then `suffix`.
pub fn join_tag(tag: &str, suffix: &str) -> (id: String)
    ensures
        id@ == tag@ + seq!['-'] + suffix@,
{
    proof {
        reveal_strlit("-");
    }
    let id = String::from_str(tag);
    let id = id.concat("-");
    id.concat(suffix)
}

/// A fresh identifier made of `tag`, a `-` and six random letters or digits.
pub fn generate_tagged_id(tag: &str) -> (id: String)
    ensures
        is_tagged_id(tag@, id@),
{
    let mut suffix = String::new();
    let mut i: usize = 0;
    while i < ID_SUFFIX_LEN
        invariant
            i <= ID_SUFFIX_LEN,
            suffix@.len() == i,
            forall|j: int| 0 <= j < i ==> is_ascii_alphanumeric(#[trigger] suffix@[j]),
        decreases ID_SUFFIX_LEN - i,
    {
        let c = random_alphanumeric();
        push_char(&mut suffix, c);
        i = i + 1;
    }
    let id = join_tag(tag, suffix.as_str());
    proof {
        assert(id@.subrange(0, tag@.len() as int) =~= tag@);
        assert forall|k: int| tag@.len() + 1 <= k < id@.len() implies is_ascii_alphanumeric(
            #[trigger] id@[k],
        ) by {
            assert(id@[k] == suffix@[k - tag@.len() - 1]);
        }
    }
    id
}

/// A fresh identifier `ID-` followed by six random letters or digits.
pub fn generate_id() -> (id: String)
    ensures
        is_tagged_id(seq!['I', 'D'], id@),
{
    proof {
        reveal_strlit("ID");
        assert("ID"@ =~= seq!['I', 'D']);
    }
    generate_tagged_id("ID")
}

/// A tagged id is the tag, a `-`, and exactly six characters, each an ASCII
/// digit or letter.
pub proof fn law_tagged_id(tag: Seq<char>, id: Seq<char>)
    requires
        is_tagged_id(tag, id),
    ensures
        id.len() == tag.len() + 7,
        id == tag + seq!['-'] + id.subrange(tag.len() + 1int, id.len() as int),
        forall|i: int|
            tag.len() + 1 <= i < id.len() ==> ('0' <= #[trigger] id[i] <= '9') || ('A' <= id[i]
                <= 'Z') || ('a' <= id[i] <= 'z'),
{
    assert(id =~= tag + seq!['-'] + id.subrange(tag.len() + 1int, id.len() as int));
}

} // verus!
