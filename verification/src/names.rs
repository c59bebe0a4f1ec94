//! Filename conventions for the codec: the fixed suffix that marks a
//! compressed file, how compression appends it and decompression strips it.

use vstd::prelude::*;

verus! {

/// The fixed suffix that marks a compressed file.
pub open spec fn codec_suffix() -> Seq<char> {
    seq!['.', 'l', 'z', '4']
}

/// Whether a filename carries the codec suffix.
pub open spec fn has_codec_suffix(s: Seq<char>) -> bool {
    s.len() >= 4 && s.subrange(s.len() - 4, s.len() as int) == codec_suffix()
}

/// The filename with the codec suffix removed.
pub open spec fn stripped(s: Seq<char>) -> Seq<char>
    recommends
        has_codec_suffix(s),
{
    s.subrange(0, s.len() - 4)
}

/// True exactly when `name` ends with the codec suffix.
pub fn ends_with_suffix(name: &str) -> (r: bool)
    ensures
        r == has_codec_suffix(name@),
{
    let n = name.unicode_len();
    if n < 4 {
        return false;
    }
    let r = name.get_char(n - 4) == '.' && name.get_char(n - 3) == 'l'
        && name.get_char(n - 2) == 'z' && name.get_char(n - 1) == '4';
    proof {
        if r {
            assert(name@.subrange(name@.len() - 4, name@.len() as int) =~= codec_suffix());
        }
        if has_codec_suffix(name@) {
            assert(name@[name@.len() - 4] == codec_suffix()[0]);
            assert(name@[name@.len() - 3] == codec_suffix()[1]);
            assert(name@[name@.len() - 2] == codec_suffix()[2]);
            assert(name@[name@.len() - 1] == codec_suffix()[3]);
        }
    }
    r
}

/// The destination name that compression produces: the source name with the
/// codec suffix appended.
pub fn add_suffix(name: &str) -> (r: String)
    ensures
        r@ == name@ + codec_suffix(),
{
    let mut s = String::from_str(name);
    s.append(".lz4");
    proof {
        reveal_strlit(".lz4");
        assert(".lz4"@ =~= codec_suffix());
        assert(s@ =~= name@ + codec_suffix());
    }
    s
}

/// The destination name that decompression produces: the source name with the
/// codec suffix stripped.
pub fn strip_suffix(name: &str) -> (r: String)
    requires
        has_codec_suffix(name@),
    ensures
        r@ == stripped(name@),
{
    let n = name.unicode_len();
    let short = name.substring_char(0, n - 4);
    String::from_str(short)
}

/// The pseudo-filename that routes a task through the standard streams.
pub open spec fn is_stdio_name(s: Seq<char>) -> bool {
    s == seq!['-']
}

/// True exactly when `name` is the stdio pseudo-file `"-"`.
pub fn is_stdio(name: &str) -> (r: bool)
    ensures
        r == is_stdio_name(name@),
{
    let n = name.unicode_len();
    if n != 1 {
        proof {
            assert(name@ != seq!['-']) by {
                assert(seq!['-'].len() == 1);
            }
        }
        return false;
    }
    let c = name.get_char(0);
    proof {
        if c == '-' {
            assert(name@ =~= seq!['-']);
        } else {
            assert(name@ != seq!['-']) by {
                assert(seq!['-'][0] == '-');
            }
        }
    }
    c == '-'
}

/// Appending the codec suffix always yields a name that carries it, and
/// stripping it again restores the original name exactly.
pub proof fn lemma_suffix_round_trip(name: Seq<char>)
    ensures
        has_codec_suffix(name + codec_suffix()),
        stripped(name + codec_suffix()) == name,
{
    let full = name + codec_suffix();
    assert(full.subrange(full.len() - 4, full.len() as int) =~= codec_suffix());
    assert(full.subrange(0, full.len() - 4) =~= name);
}

} // verus!
