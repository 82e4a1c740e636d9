use vstd::prelude::*;

verus! {

use vstd::string::StringSliceAdditionalSpecFns;

/// Whether `c` has Unicode's White_Space property.
pub open spec fn white_space(c: char) -> bool {
    ||| '\u{9}' <= c && c <= '\u{d}'
    ||| c == ' '
    ||| c == '\u{85}'
    ||| c == '\u{a0}'
    ||| c == '\u{1680}'
    ||| '\u{2000}' <= c && c <= '\u{200a}'
    ||| c == '\u{2028}'
    ||| c == '\u{2029}'
    ||| c == '\u{202f}'
    ||| c == '\u{205f}'
    ||| c == '\u{3000}'
}

/// Relies on `char::is_whitespace`: true exactly for the characters with
/// the White_Space property.
#[verifier::external_body]
fn is_white_space(c: char) -> (r: bool)
    ensures
        r == white_space(c),
{
    c.is_whitespace()
}

/// `c` in upper case when it is an ASCII lower-case letter, else `c` itself.
pub open spec fn ascii_upper(c: char) -> char {
    if 'a' <= c && c <= 'z' {
        (((c as u32) - 32) as u8) as char
    } else {
        c
    }
}

/// `c` in upper case when it is an ASCII lower-case letter, else `c` itself.
fn to_ascii_upper(c: char) -> (r: char)
    ensures
        r == ascii_upper(c),
{
    if 'a' <= c && c <= 'z' {
        ((c as u32 - 32) as u8) as char
    } else {
        c
    }
}

/// Relies on `String::push`: appends one character.
#[verifier::external_body]
pub(crate) fn push_char(s: &mut String, c: char)
    ensures
        final(s)@ == old(s)@.push(c),
{
    s.push(c)
}

/// The text `String::from_utf8_lossy` makes of `b`: its valid UTF-8 decoded,
/// each invalid run replaced by U+FFFD.
pub uninterp spec fn lossy_text(b: Seq<u8>) -> Seq<char>;

/// Relies on `String::from_utf8_lossy`: the text depends on the bytes alone,
/// and no bytes give no text.
#[verifier::external_body]
fn from_utf8_lossy(b: &[u8]) -> (r: String)
    ensures
        r@ == lossy_text(b@),
        b@.len() == 0 ==> r@.len() == 0,
{
    String::from_utf8_lossy(b).into_owned()
}

/// The character that stands for `s[i]` in camel case: put in ASCII upper
/// case when an underscore comes just before it.
pub open spec fn camel_char(s: Seq<char>, i: int) -> char {
    if i > 0 && s[i - 1] == '_' {
        ascii_upper(s[i])
    } else {
        s[i]
    }
}

/// `s` with each underscore dropped and each character that follows an
/// underscore put in ASCII upper case.
pub open spec fn camel_case(s: Seq<char>) -> Seq<char>
    decreases s.len(),
{
    if s.len() == 0 {
        Seq::empty()
    } else if s.last() == '_' {
        camel_case(s.drop_last())
    } else {
        camel_case(s.drop_last()).push(camel_char(s, s.len() - 1))
    }
}

/// `b` cut into runs of `size` bytes, the last one shorter when `size` does
/// not divide the length.
pub open spec fn byte_chunks(b: Seq<u8>, size: nat) -> Seq<Seq<u8>>
    recommends
        size > 0,
    decreases b.len(),
{
    if b.len() == 0 || size == 0 {
        Seq::empty()
    } else if b.len() <= size {
        seq![b]
    } else {
        seq![b.take(size as int)] + byte_chunks(b.skip(size as int), size)
    }
}

/// Queries and conversions on text.
pub trait StringExt {
    /// The characters of the text.
    spec fn text(&self) -> Seq<char>;

    /// The UTF-8 bytes of the text.
    spec fn utf8(&self) -> Seq<u8>;

    /// Whether the text is empty or holds only white space.
    fn is_blank(&self) -> (r: bool)
        ensures
            r == forall|i: int| 0 <= i < self.text().len() ==> white_space(#[trigger] self.text()[i]),
    ;

    /// The text turned from `snake_case` into `camelCase`.
    fn to_camel_case(&self) -> (r: String)
        ensures
            r@ == camel_case(self.text()),
    ;

    /// The UTF-8 bytes cut into runs of `size`, each read back as text.
    fn chunks(&self, size: usize) -> (r: Vec<String>)
        requires
            size > 0,
        ensures
            r@.len() == byte_chunks(self.utf8(), size as nat).len(),
            forall|i: int|
                0 <= i < r@.len() ==> #[trigger] r@[i]@ == lossy_text(
                    byte_chunks(self.utf8(), size as nat)[i],
                ),
    ;
}

impl StringExt for str {
    open spec fn text(&self) -> Seq<char> {
        self@
    }

    open spec fn utf8(&self) -> Seq<u8> {
        self.spec_bytes()
    }

    fn is_blank(&self) -> (r: bool) {
        broadcast use vstd::string::axiom_spec_iter;

        for c in it: self.chars()
            invariant
                it.seq() == self@,
                forall|k: int| 0 <= k < it.index() ==> white_space(#[trigger] self@[k]),
        {
            if !is_white_space(c) {
                assert(!white_space(self.text()[it.index() as int]));
                return false;
            }
        }
        true
    }

    fn to_camel_case(&self) -> (r: String) {
        broadcast use vstd::string::axiom_spec_iter;

        let mut result = String::new();
        let mut capitalize = false;
        for c in it: self.chars()
            invariant
                it.seq() == self@,
                result@ == camel_case(self@.take(it.index() as int)),
                capitalize == (it.index() > 0 && self@[it.index() - 1] == '_'),
        {
            proof {
                let i = it.index() as int;
                assert(c == self@[i]);
                assert(self@.take(i + 1).drop_last() =~= self@.take(i));
                assert(camel_char(self@.take(i + 1), i) == camel_char(self@, i));
            }
            if c == '_' {
                capitalize = true;
            } else if capitalize {
                push_char(&mut result, to_ascii_upper(c));
                capitalize = false;
            } else {
                push_char(&mut result, c);
            }
        }
        assert(self@.take(self@.len() as int) =~= self@);
        result
    }

    fn chunks(&self, size: usize) -> (r: Vec<String>) {
        let bytes = self.as_bytes();
        let ghost all = bytes@;
        let mut out: Vec<String> = Vec::new();
        let ghost mut done: Seq<Seq<u8>> = Seq::empty();
        let mut start: usize = 0;
        assert(all.skip(0) =~= all);
        assert(done + byte_chunks(all, size as nat) =~= byte_chunks(all, size as nat));
        while start < bytes.len()
            invariant
                bytes@ == all,
                size > 0,
                start <= all.len(),
                done + byte_chunks(all.skip(start as int), size as nat) == byte_chunks(all, size as nat),
                out@.len() == done.len(),
                forall|i: int| 0 <= i < out@.len() ==> #[trigger] out@[i]@ == lossy_text(done[i]),
            decreases all.len() - start,
        {
            let end: usize = if bytes.len() - start <= size {
                bytes.len()
            } else {
                start + size
            };
            let piece = &bytes[start..end];
            proof {
                let rest = all.skip(start as int);
                assert(piece@ =~= all.subrange(start as int, end as int));
                if rest.len() <= size {
                    assert(piece@ =~= rest);
                    assert(all.skip(end as int) =~= Seq::<u8>::empty());
                    assert(byte_chunks(all.skip(end as int), size as nat) =~= Seq::<Seq<u8>>::empty());
                    assert(byte_chunks(rest, size as nat) == seq![rest]);
                } else {
                    assert(piece@ =~= rest.take(size as int));
                    assert(rest.skip(size as int) =~= all.skip(end as int));
                }
                assert(byte_chunks(rest, size as nat) =~= seq![piece@] + byte_chunks(all.skip(end as int), size as nat));
                assert(done.push(piece@) + byte_chunks(all.skip(end as int), size as nat) =~= done + byte_chunks(rest, size as nat));
                done = done.push(piece@);
            }
            out.push(from_utf8_lossy(piece));
            start = end;
        }
        proof {
            assert(all.skip(start as int) =~= Seq::<u8>::empty());
            assert(done + Seq::<Seq<u8>>::empty() =~= done);
        }
        out
    }
}

} // verus!
