//! The large block font in which the clock draws its digits and letters.
//!
//! Each glyph is five rows of five cells, each cell either blank or a full
//! block. Digits, the colon, the space, the comma, the period and the
//! letters have glyphs; a lowercase letter is drawn with the glyph of its
//! uppercase.

use vstd::prelude::*;
use std::collections::HashMap;

verus! {

broadcast use vstd::std_specs::hash::group_hash_axioms;

/// The width of a glyph, in cells.
pub const GLYPH_WIDTH: usize = 5;

/// The height of a glyph, in rows.
pub const GLYPH_HEIGHT: usize = 5;

/// The code under which the font looks a character up: that of its
/// uppercase for an ASCII letter, its own otherwise.
pub open spec fn lookup_code(c: char) -> u32 {
    if 'a' <= c && c <= 'z' {
        (c as u32 - 32) as u32
    } else {
        c as u32
    }
}

/// The glyph table: for the code of each character that has a glyph, the
/// rows of that glyph.
pub open spec fn glyph_table(code: u32) -> Option<Seq<Seq<char>>> {
    if code == '0' as u32 {
        Some(seq![" ███ "@, "█   █"@, "█   █"@, "█   █"@, " ███ "@])
    } else if code == '1' as u32 {
        Some(seq!["  █  "@, " ██  "@, "  █  "@, "  █  "@, "  █  "@])
    } else if code == '2' as u32 {
        Some(seq![" ███ "@, "    █"@, " ███ "@, "█    "@, " ███ "@])
    } else if code == '3' as u32 {
        Some(seq![" ███ "@, "    █"@, " ███ "@, "    █"@, " ███ "@])
    } else if code == '4' as u32 {
        Some(seq!["█   █"@, "█   █"@, " ███ "@, "    █"@, "    █"@])
    } else if code == '5' as u32 {
        Some(seq![" ███ "@, "█    "@, " ███ "@, "    █"@, " ███ "@])
    } else if code == '6' as u32 {
        Some(seq![" ███ "@, "█    "@, " ███ "@, "█   █"@, " ███ "@])
    } else if code == '7' as u32 {
        Some(seq![" ███ "@, "    █"@, "    █"@, "    █"@, "    █"@])
    } else if code == '8' as u32 {
        Some(seq![" ███ "@, "█   █"@, " ███ "@, "█   █"@, " ███ "@])
    } else if code == '9' as u32 {
        Some(seq![" ███ "@, "█   █"@, " ███ "@, "    █"@, " ███ "@])
    } else if code == ':' as u32 {
        Some(seq!["  █  "@, "     "@, "  █  "@, "     "@, "  █  "@])
    } else if code == ' ' as u32 {
        Some(seq!["     "@, "     "@, "     "@, "     "@, "     "@])
    } else if code == ',' as u32 {
        Some(seq!["     "@, "     "@, "     "@, " █   "@, " █   "@])
    } else if code == '.' as u32 {
        Some(seq!["     "@, "     "@, "     "@, "     "@, "  █  "@])
    } else if code == 'A' as u32 {
        Some(seq![" ███ "@, "█   █"@, " ███ "@, "█   █"@, "█   █"@])
    } else if code == 'B' as u32 {
        Some(seq![" ███ "@, "█   █"@, " ███ "@, "█   █"@, " ███ "@])
    } else if code == 'C' as u32 {
        Some(seq![" ███ "@, "█    "@, "█    "@, "█    "@, " ███ "@])
    } else if code == 'D' as u32 {
        Some(seq!["█████"@, "█   █"@, "█   █"@, "█   █"@, "█████"@])
    } else if code == 'E' as u32 {
        Some(seq![" ███ "@, "█    "@, " ███ "@, "█    "@, " ███ "@])
    } else if code == 'F' as u32 {
        Some(seq![" ███ "@, "█    "@, " ███ "@, "█    "@, "█    "@])
    } else if code == 'G' as u32 {
        Some(seq![" ███ "@, "█    "@, " ███ "@, "█   █"@, " ███ "@])
    } else if code == 'H' as u32 {
        Some(seq!["█   █"@, "█   █"@, " ███ "@, "█   █"@, "█   █"@])
    } else if code == 'I' as u32 {
        Some(seq![" ███ "@, "  █  "@, "  █  "@, "  █  "@, " ███ "@])
    } else if code == 'J' as u32 {
        Some(seq!["    █"@, "    █"@, "    █"@, "█   █"@, " ███ "@])
    } else if code == 'K' as u32 {
        Some(seq!["█   █"@, "█  █ "@, " ██  "@, "█  █ "@, "█   █"@])
    } else if code == 'L' as u32 {
        Some(seq!["█    "@, "█    "@, "█    "@, "█    "@, " ███ "@])
    } else if code == 'M' as u32 {
        Some(seq!["█   █"@, "██ ██"@, "█ █ █"@, "█   █"@, "█   █"@])
    } else if code == 'N' as u32 {
        Some(seq!["█   █"@, "██  █"@, "█ █ █"@, "█  ██"@, "█   █"@])
    } else if code == 'O' as u32 {
        Some(seq![" ███ "@, "█   █"@, "█   █"@, "█   █"@, " ███ "@])
    } else if code == 'P' as u32 {
        Some(seq![" ███ "@, "█   █"@, " ███ "@, "█    "@, "█    "@])
    } else if code == 'Q' as u32 {
        Some(seq![" ███ "@, "█   █"@, " ███ "@, "█  █ "@, " ███ "@])
    } else if code == 'R' as u32 {
        Some(seq![" ███ "@, "█   █"@, " ███ "@, "█  █ "@, "█   █"@])
    } else if code == 'S' as u32 {
        Some(seq![" ███ "@, "█    "@, " ███ "@, "    █"@, " ███ "@])
    } else if code == 'T' as u32 {
        Some(seq![" ███ "@, "  █  "@, "  █  "@, "  █  "@, "  █  "@])
    } else if code == 'U' as u32 {
        Some(seq!["█   █"@, "█   █"@, "█   █"@, "█   █"@, " ███ "@])
    } else if code == 'V' as u32 {
        Some(seq!["█   █"@, "█   █"@, " █ █ "@, " █ █ "@, "  █  "@])
    } else if code == 'W' as u32 {
        Some(seq!["█   █"@, "█   █"@, "█ █ █"@, "██ ██"@, "█   █"@])
    } else if code == 'X' as u32 {
        Some(seq!["█   █"@, " █ █ "@, "  █  "@, " █ █ "@, "█   █"@])
    } else if code == 'Y' as u32 {
        Some(seq!["█   █"@, " █ █ "@, "  █  "@, "  █  "@, "  █  "@])
    } else if code == 'Z' as u32 {
        Some(seq![" ███ "@, "    █"@, "   █ "@, "  █  "@, " ███ "@])
    } else {
        None
    }
}

/// The glyph that the font draws for a character: that of its uppercase.
pub open spec fn glyph_of(c: char) -> Option<Seq<Seq<char>>> {
    glyph_table(lookup_code(c))
}

/// A row of five blank cells, drawn for a character without a glyph.
pub open spec fn blank_row() -> Seq<char> {
    seq![' ', ' ', ' ', ' ', ' ']
}

/// Whether a row is as wide as a glyph and holds only blank and block
/// cells.
pub open spec fn is_block_row(r: Seq<char>) -> bool {
    &&& r.len() == GLYPH_WIDTH
    &&& forall|j: int| 0 <= j < r.len() ==> #[trigger] r[j] == ' ' || r[j] == '█'
}

/// Whether a glyph is as high as a glyph and each of its rows is a block
/// row.
pub open spec fn is_block_glyph(g: Seq<Seq<char>>) -> bool {
    &&& g.len() == GLYPH_HEIGHT
    &&& forall|i: int| 0 <= i < g.len() ==> is_block_row(#[trigger] g[i])
}

proof fn lemma_block_row(r: Seq<char>)
    requires
        r.len() == 5,
        r[0] == ' ' || r[0] == '█',
        r[1] == ' ' || r[1] == '█',
        r[2] == ' ' || r[2] == '█',
        r[3] == ' ' || r[3] == '█',
        r[4] == ' ' || r[4] == '█',
    ensures
        is_block_row(r),
{
    assert forall|j: int| 0 <= j < r.len() implies #[trigger] r[j] == ' ' || r[j] == '█' by {
        if j == 0 {
        } else if j == 1 {
        } else if j == 2 {
        } else if j == 3 {
        } else {
        }
    }
}

/// Every glyph is five rows of five cells, each cell blank or a full block.
pub proof fn lemma_glyphs_are_blocks(c: char)
    ensures
        glyph_of(c) matches Some(g) ==> is_block_glyph(g),
{
        reveal_strlit(" ███ ");
        reveal_strlit("█   █");
        reveal_strlit("  █  ");
        reveal_strlit(" ██  ");
        reveal_strlit("    █");
        reveal_strlit("█    ");
        reveal_strlit("     ");
        reveal_strlit(" █   ");
        reveal_strlit("█████");
        reveal_strlit("█  █ ");
        reveal_strlit("██ ██");
        reveal_strlit("█ █ █");
        reveal_strlit("██  █");
        reveal_strlit("█  ██");
        reveal_strlit(" █ █ ");
        reveal_strlit("   █ ");
        lemma_block_row(" ███ "@);
        lemma_block_row("█   █"@);
        lemma_block_row("  █  "@);
        lemma_block_row(" ██  "@);
        lemma_block_row("    █"@);
        lemma_block_row("█    "@);
        lemma_block_row("     "@);
        lemma_block_row(" █   "@);
        lemma_block_row("█████"@);
        lemma_block_row("█  █ "@);
        lemma_block_row("██ ██"@);
        lemma_block_row("█ █ █"@);
        lemma_block_row("██  █"@);
        lemma_block_row("█  ██"@);
        lemma_block_row(" █ █ "@);
        lemma_block_row("   █ "@);
}

/// Exactly the digits, the colon, the space, the comma, the period and
/// the ASCII letters, in either case, have glyphs.
pub proof fn lemma_glyph_coverage(c: char)
    ensures
        glyph_of(c) is Some <==> {
            ||| '0' <= c && c <= '9'
            ||| c == ':'
            ||| c == ' '
            ||| c == ','
            ||| c == '.'
            ||| 'A' <= c && c <= 'Z'
            ||| 'a' <= c && c <= 'z'
        },
{
}

/// A lowercase ASCII letter is drawn with the glyph of its uppercase.
pub proof fn lemma_lowercase_as_uppercase(lower: char, upper: char)
    requires
        'a' <= lower && lower <= 'z',
        upper as u32 == lower as u32 - 32,
    ensures
        glyph_of(lower) is Some,
        glyph_of(lower) == glyph_of(upper),
{
}

/// The glyph table as a map from character codes to glyph rows.
pub open spec fn glyph_map() -> Map<u32, Seq<Seq<char>>> {
    Map::new(|code: u32| glyph_table(code) is Some, |code: u32| glyph_table(code).unwrap())
}

/// The font.
pub struct LargeFont {
    glyphs: HashMap<u32, Vec<String>>,
}

impl View for LargeFont {
    type V = Map<u32, Seq<Seq<char>>>;

    /// The rows of each glyph, by character code.
    closed spec fn view(&self) -> Map<u32, Seq<Seq<char>>> {
        self.glyphs@.map_values(|rows: Vec<String>| rows.deep_view())
    }
}

/// Whether a map from character codes holds, under `code`, exactly what
/// the glyph table gives `code`.
pub open spec fn holds_glyph(m: Map<u32, Vec<String>>, code: u32) -> bool {
    match glyph_table(code) {
        Some(rows) => m.contains_key(code) && m[code].deep_view() == rows,
        None => !m.contains_key(code),
    }
}

/// Whether a map from character codes holds exactly the glyph table.
pub open spec fn holds_glyph_table(m: Map<u32, Vec<String>>) -> bool {
    forall|code: u32| #[trigger] holds_glyph(m, code)
}

/// Builds the rows of a glyph.
fn glyph_rows(r0: &str, r1: &str, r2: &str, r3: &str, r4: &str) -> (v: Vec<String>)
    ensures
        v.deep_view() == seq![r0@, r1@, r2@, r3@, r4@],
{
    let mut v: Vec<String> = Vec::new();
    v.push(String::from_str(r0));
    v.push(String::from_str(r1));
    v.push(String::from_str(r2));
    v.push(String::from_str(r3));
    v.push(String::from_str(r4));
    assert(v.deep_view() =~= seq![r0@, r1@, r2@, r3@, r4@]);
    v
}

/// Adds the glyph of a character to a table under construction.
fn add_glyph(
    g: &mut HashMap<u32, Vec<String>>,
    c: char,
    r0: &str,
    r1: &str,
    r2: &str,
    r3: &str,
    r4: &str,
)
    ensures
        final(g)@ == old(g)@.insert(c as u32, final(g)@[c as u32]),
        final(g)@[c as u32].deep_view() == seq![r0@, r1@, r2@, r3@, r4@],
{
    let rows = glyph_rows(r0, r1, r2, r3, r4);
    g.insert(c as u32, rows);
}

impl LargeFont {
    #[verifier::type_invariant]
    closed spec fn inv(self) -> bool {
        holds_glyph_table(self.glyphs@)
    }

    /// The font with all its glyphs.
    #[verifier::rlimit(50)]
    pub fn new() -> (f: Self)
        ensures
            f@ == glyph_map(),
    {
        let mut g: HashMap<u32, Vec<String>> = HashMap::new();
        add_glyph(&mut g, '0', " ███ ", "█   █", "█   █", "█   █", " ███ ");
        add_glyph(&mut g, '1', "  █  ", " ██  ", "  █  ", "  █  ", "  █  ");
        add_glyph(&mut g, '2', " ███ ", "    █", " ███ ", "█    ", " ███ ");
        add_glyph(&mut g, '3', " ███ ", "    █", " ███ ", "    █", " ███ ");
        add_glyph(&mut g, '4', "█   █", "█   █", " ███ ", "    █", "    █");
        add_glyph(&mut g, '5', " ███ ", "█    ", " ███ ", "    █", " ███ ");
        add_glyph(&mut g, '6', " ███ ", "█    ", " ███ ", "█   █", " ███ ");
        add_glyph(&mut g, '7', " ███ ", "    █", "    █", "    █", "    █");
        add_glyph(&mut g, '8', " ███ ", "█   █", " ███ ", "█   █", " ███ ");
        add_glyph(&mut g, '9', " ███ ", "█   █", " ███ ", "    █", " ███ ");
        add_glyph(&mut g, ':', "  █  ", "     ", "  █  ", "     ", "  █  ");
        add_glyph(&mut g, ' ', "     ", "     ", "     ", "     ", "     ");
        add_glyph(&mut g, ',', "     ", "     ", "     ", " █   ", " █   ");
        add_glyph(&mut g, '.', "     ", "     ", "     ", "     ", "  █  ");
        add_glyph(&mut g, 'A', " ███ ", "█   █", " ███ ", "█   █", "█   █");
        add_glyph(&mut g, 'B', " ███ ", "█   █", " ███ ", "█   █", " ███ ");
        add_glyph(&mut g, 'C', " ███ ", "█    ", "█    ", "█    ", " ███ ");
        add_glyph(&mut g, 'D', "█████", "█   █", "█   █", "█   █", "█████");
        add_glyph(&mut g, 'E', " ███ ", "█    ", " ███ ", "█    ", " ███ ");
        add_glyph(&mut g, 'F', " ███ ", "█    ", " ███ ", "█    ", "█    ");
        add_glyph(&mut g, 'G', " ███ ", "█    ", " ███ ", "█   █", " ███ ");
        add_glyph(&mut g, 'H', "█   █", "█   █", " ███ ", "█   █", "█   █");
        add_glyph(&mut g, 'I', " ███ ", "  █  ", "  █  ", "  █  ", " ███ ");
        add_glyph(&mut g, 'J', "    █", "    █", "    █", "█   █", " ███ ");
        add_glyph(&mut g, 'K', "█   █", "█  █ ", " ██  ", "█  █ ", "█   █");
        add_glyph(&mut g, 'L', "█    ", "█    ", "█    ", "█    ", " ███ ");
        add_glyph(&mut g, 'M', "█   █", "██ ██", "█ █ █", "█   █", "█   █");
        add_glyph(&mut g, 'N', "█   █", "██  █", "█ █ █", "█  ██", "█   █");
        add_glyph(&mut g, 'O', " ███ ", "█   █", "█   █", "█   █", " ███ ");
        add_glyph(&mut g, 'P', " ███ ", "█   █", " ███ ", "█    ", "█    ");
        add_glyph(&mut g, 'Q', " ███ ", "█   █", " ███ ", "█  █ ", " ███ ");
        add_glyph(&mut g, 'R', " ███ ", "█   █", " ███ ", "█  █ ", "█   █");
        add_glyph(&mut g, 'S', " ███ ", "█    ", " ███ ", "    █", " ███ ");
        add_glyph(&mut g, 'T', " ███ ", "  █  ", "  █  ", "  █  ", "  █  ");
        add_glyph(&mut g, 'U', "█   █", "█   █", "█   █", "█   █", " ███ ");
        add_glyph(&mut g, 'V', "█   █", "█   █", " █ █ ", " █ █ ", "  █  ");
        add_glyph(&mut g, 'W', "█   █", "█   █", "█ █ █", "██ ██", "█   █");
        add_glyph(&mut g, 'X', "█   █", " █ █ ", "  █  ", " █ █ ", "█   █");
        add_glyph(&mut g, 'Y', "█   █", " █ █ ", "  █  ", "  █  ", "  █  ");
        add_glyph(&mut g, 'Z', " ███ ", "    █", "   █ ", "  █  ", " ███ ");
        assert forall|code: u32| #[trigger] holds_glyph(g@, code) by {}
        let f = Self { glyphs: g };
        assert(f@ =~= glyph_map()) by {
            assert forall|code: u32| #[trigger] f@.contains_key(code) == glyph_map().contains_key(
                code,
            ) by {
                assert(holds_glyph(g@, code));
            }
        }
        f
    }

    /// The glyph drawn for a character, looked up by its uppercase; `None`
    /// for a character without a glyph.
    pub fn get_glyph(&self, c: char) -> (r: Option<&Vec<String>>)
        ensures
            match r {
                Some(rows) => glyph_of(c) == Some(rows.deep_view()),
                None => glyph_of(c) is None,
            },
    {
        proof {
            use_type_invariant(self);
        }
        let code: u32 = if 'a' <= c && c <= 'z' {
            c as u32 - 32
        } else {
            c as u32
        };
        assert(holds_glyph(self.glyphs@, code));
        self.glyphs.get(&code)
    }

    /// The width of every glyph, in cells.
    pub fn glyph_width(&self) -> (w: usize)
        ensures
            w == GLYPH_WIDTH,
    {
        GLYPH_WIDTH
    }

    /// The height of every glyph, in rows.
    pub fn glyph_height(&self) -> (h: usize)
        ensures
            h == GLYPH_HEIGHT,
    {
        GLYPH_HEIGHT
    }
}

} // verus!
