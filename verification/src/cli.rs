//! Command-line text of the development CLI: its usage text and the reading
//! of a boundary given as `"lon,lat;lon,lat;..."`.
use crate::text::{char_views, chars_of, comma_fields, pair_fields, string_of, trim, trim_range};
use vstd::prelude::*;

verus! {

pub const USAGE: &'static str = "Usage:\n  mcrebuild-cli init <project_dir> <school_name> <campus_name> [blocks_per_meter] [minecraft_version]\n  mcrebuild-cli search-campus <keyword> [region]\n  mcrebuild-cli init-campus <project_dir> <keyword> <poi_id> [blocks_per_meter] [minecraft_version] [region]\n  mcrebuild-cli set-boundary <project_dir> \"lon,lat;lon,lat;lon,lat;...\"\n\nAMap commands require AMAP_WEB_SERVICE_KEY.\nAll boundary coordinates are WGS-84.\nExample:\n  mcrebuild-cli set-boundary ./ecnu \"121.398,31.222;121.414,31.222;121.414,31.234;121.398,31.234\"";

/// The usage text of the development CLI.
pub fn usage() -> (r: String)
    ensures
        r@ == USAGE@,
{
    string_of(&chars_of(USAGE))
}

/// `s` cut at every `sep` (`str::split`): the pieces in order, `sep` in none of
/// them, one more piece than there are separators.
pub open spec fn split_on(s: Seq<char>, sep: char) -> Seq<Seq<char>>
    decreases s.len(),
{
    if s.len() == 0 {
        seq![seq![]]
    } else {
        let prev = split_on(s.drop_last(), sep);
        if s.last() == sep {
            prev.push(seq![])
        } else {
            prev.update(prev.len() - 1, prev.last().push(s.last()))
        }
    }
}

/// The pieces that are not blank, each with white space trimmed at both ends.
pub open spec fn boundary_pairs(pieces: Seq<Seq<char>>) -> Seq<Seq<char>>
    decreases pieces.len(),
{
    if pieces.len() == 0 {
        seq![]
    } else {
        let prev = boundary_pairs(pieces.drop_last());
        let t = trim(pieces.last());
        if t.len() == 0 {
            prev
        } else {
            prev.push(t)
        }
    }
}

/// One vertex of a boundary as text: the trimmed pair, and its longitude and
/// latitude texts where it has a comma.
#[derive(Debug, Clone)]
pub struct BoundaryPairText {
    pub pair: String,
    pub fields: Option<(String, String)>,
}

/// `t` is the text of `pair`.
pub open spec fn describes(t: BoundaryPairText, pair: Seq<char>) -> bool {
    &&& t.pair@ == pair
    &&& match pair_fields(pair) {
        Some(f) => t.fields is Some && t.fields.unwrap().0@ == f.0 && t.fields.unwrap().1@ == f.1,
        None => t.fields is None,
    }
}

/// `s` cut at every `sep`.
fn split_chars(s: &Vec<char>, sep: char) -> (r: Vec<Vec<char>>)
    ensures
        char_views(r@) == split_on(s@, sep),
{
    let mut parts: Vec<Vec<char>> = Vec::new();
    parts.push(Vec::new());
    assert(char_views(parts@) =~= split_on(s@.take(0), sep));
    let mut i: usize = 0;
    while i < s.len()
        invariant
            0 <= i <= s.len(),
            parts.len() >= 1,
            char_views(parts@) == split_on(s@.take(i as int), sep),
        decreases s.len() - i,
    {
        let ghost before = char_views(parts@);
        proof {
            assert(s@.take(i + 1).drop_last() =~= s@.take(i as int));
            assert(s@.take(i + 1).last() == s@[i as int]);
        }
        if s[i] == sep {
            parts.push(Vec::new());
            assert(char_views(parts@) =~= before.push(seq![]));
        } else {
            let last_index = parts.len() - 1;
            let mut last = parts.remove(last_index);
            last.push(s[i]);
            parts.push(last);
            assert(char_views(parts@) =~= before.update(
                before.len() - 1,
                before.last().push(s@[i as int]),
            ));
        }
        i = i + 1;
    }
    assert(s@.take(s.len() as int) =~= s@);
    parts
}

/// Reads a boundary given as `"lon,lat;lon,lat;..."`: the text is cut at every
/// `;`, blank pieces are skipped, and each remaining piece is trimmed and cut
/// at its first comma into a longitude and a latitude text, each trimmed.
/// Reading the numbers is left to the caller, in order, so that the first bad
/// pair is the one reported.
pub fn boundary_pair_texts(value: &str) -> (r: Vec<BoundaryPairText>)
    ensures
        r.len() == boundary_pairs(split_on(value@, ';')).len(),
        forall|k: int|
            0 <= k < r.len() ==> describes(#[trigger] r[k], boundary_pairs(split_on(value@, ';'))[k]),
{
    let chars = chars_of(value);
    let pieces = split_chars(&chars, ';');
    let ghost views = char_views(pieces@);
    let mut out: Vec<BoundaryPairText> = Vec::new();
    let mut k: usize = 0;
    while k < pieces.len()
        invariant
            0 <= k <= pieces.len(),
            views == char_views(pieces@),
            views == split_on(value@, ';'),
            out.len() == boundary_pairs(views.take(k as int)).len(),
            forall|j: int|
                0 <= j < out.len() ==> describes(#[trigger] out[j], boundary_pairs(views.take(k as int))[j]),
        decreases pieces.len() - k,
    {
        let ghost before = boundary_pairs(views.take(k as int));
        proof {
            assert(views.take(k + 1).drop_last() =~= views.take(k as int));
            assert(views.take(k + 1).last() == pieces@[k as int]@);
        }
        let piece = &pieces[k];
        assert(piece@.subrange(0, piece@.len() as int) =~= piece@);
        let t = trim_range(piece, 0, piece.len());
        if t.len() > 0 {
            let fields = comma_fields(&t);
            let text = BoundaryPairText { pair: string_of(&t), fields };
            assert(describes(text, t@));
            let ghost out_before = out@;
            out.push(text);
            assert forall|j: int| 0 <= j < out.len() implies describes(
                #[trigger] out[j],
                boundary_pairs(views.take(k + 1))[j],
            ) by {
                if j < before.len() {
                    assert(out[j] == out_before[j]);
                }
            }
        }
        k = k + 1;
    }
    assert(views.take(pieces.len() as int) =~= views);
    out
}

} // verus!
