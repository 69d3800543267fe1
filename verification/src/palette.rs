//! The panel's six-colour palette and the nearest-colour quantiser.
//!
//! Palette indices follow the table `BLACK = 0`, `WHITE = 1`, `YELLOW = 2`,
//! `RED = 3`, `BLUE = 5`, `GREEN = 6`.  Indices 4 and 7 are not colours of
//! the panel and are never produced here.

use vstd::prelude::*;

verus! {

/// A colour with red, green, blue and alpha channels of eight bits each.
#[derive(Clone, Copy, Debug, PartialEq, Eq, Structural)]
pub struct Rgba8 {
    pub r: u8,
    pub g: u8,
    pub b: u8,
    pub a: u8,
}

/// The six colours the panel can show.
#[allow(non_camel_case_types)]
#[derive(Clone, Copy, Debug, PartialEq, Eq, Structural)]
pub enum Colours {
    BLACK,
    WHITE,
    YELLOW,
    RED,
    BLUE,
    GREEN,
}

impl Colours {
    /// The colour as the panel renders it, fully opaque.
    pub open spec fn spec_rgba(self) -> Rgba8 {
        match self {
            Colours::BLACK => Rgba8 { r: 0, g: 0, b: 0, a: 255 },
            Colours::WHITE => Rgba8 { r: 255, g: 255, b: 255, a: 255 },
            Colours::YELLOW => Rgba8 { r: 255, g: 242, b: 0, a: 255 },
            Colours::RED => Rgba8 { r: 255, g: 0, b: 0, a: 255 },
            Colours::BLUE => Rgba8 { r: 0, g: 0, b: 217, a: 255 },
            Colours::GREEN => Rgba8 { r: 0, g: 228, b: 0, a: 255 },
        }
    }

    /// The index the panel knows the colour by.
    pub open spec fn spec_index(self) -> u8 {
        match self {
            Colours::BLACK => 0,
            Colours::WHITE => 1,
            Colours::YELLOW => 2,
            Colours::RED => 3,
            Colours::BLUE => 5,
            Colours::GREEN => 6,
        }
    }

    /// Position of the colour in the order in which the quantiser scans the
    /// palette.  Among equally near colours the one of lowest rank wins.
    pub open spec fn rank(self) -> int {
        match self {
            Colours::BLACK => 0,
            Colours::WHITE => 1,
            Colours::YELLOW => 2,
            Colours::RED => 3,
            Colours::BLUE => 4,
            Colours::GREEN => 5,
        }
    }

    /// The colour as the panel renders it.
    pub fn as_rgba(self) -> (c: Rgba8)
        ensures
            c == self.spec_rgba(),
    {
        match self {
            Colours::BLACK => Rgba8 { r: 0, g: 0, b: 0, a: 255 },
            Colours::WHITE => Rgba8 { r: 255, g: 255, b: 255, a: 255 },
            Colours::YELLOW => Rgba8 { r: 255, g: 242, b: 0, a: 255 },
            Colours::RED => Rgba8 { r: 255, g: 0, b: 0, a: 255 },
            Colours::BLUE => Rgba8 { r: 0, g: 0, b: 217, a: 255 },
            Colours::GREEN => Rgba8 { r: 0, g: 228, b: 0, a: 255 },
        }
    }

    /// The index the panel knows the colour by.
    pub fn index(self) -> (i: u8)
        ensures
            i == self.spec_index(),
    {
        match self {
            Colours::BLACK => 0,
            Colours::WHITE => 1,
            Colours::YELLOW => 2,
            Colours::RED => 3,
            Colours::BLUE => 5,
            Colours::GREEN => 6,
        }
    }
}

/// Whether `index` names one of the six colours.
pub open spec fn is_legal_index(index: int) -> bool {
    index == 0 || index == 1 || index == 2 || index == 3 || index == 5 || index == 6
}

/// Square of the Euclidean distance between two colours in red, green and
/// blue.  Alpha plays no part.
pub open spec fn distance_squared(a: Rgba8, b: Rgba8) -> int {
    (a.r - b.r) * (a.r - b.r) + (a.g - b.g) * (a.g - b.g) + (a.b - b.b) * (a.b - b.b)
}

/// `best` is the palette colour nearest to `color`: no colour is nearer, and
/// every colour scanned before it is strictly farther.
pub open spec fn is_nearest(color: Rgba8, best: Colours) -> bool {
    &&& forall|other: Colours|
        distance_squared(color, best.spec_rgba()) <= distance_squared(
            color,
            #[trigger] other.spec_rgba(),
        )
    &&& forall|other: Colours|
        #[trigger] other.rank() < best.rank() ==> distance_squared(color, best.spec_rgba())
            < distance_squared(color, other.spec_rgba())
}

/// Of `best` and `candidate`, the colour nearer to `color`; `best` where
/// both are equally near.
pub open spec fn nearer(color: Rgba8, best: Colours, candidate: Colours) -> Colours {
    if distance_squared(color, candidate.spec_rgba()) < distance_squared(color, best.spec_rgba()) {
        candidate
    } else {
        best
    }
}

/// The palette colour that the quantiser maps `color` to: the nearest one,
/// found by going through the palette in the order of the ranks.
pub open spec fn nearest(color: Rgba8) -> Colours {
    let best = Colours::BLACK;
    let best = nearer(color, best, Colours::WHITE);
    let best = nearer(color, best, Colours::YELLOW);
    let best = nearer(color, best, Colours::RED);
    let best = nearer(color, best, Colours::BLUE);
    nearer(color, best, Colours::GREEN)
}

/// The palette colour that has exactly the red, green and blue of `color`,
/// if there is one.
pub open spec fn palette_colour_of(color: Rgba8) -> Option<Colours> {
    if color.r == 0 && color.g == 0 && color.b == 0 {
        Some(Colours::BLACK)
    } else if color.r == 255 && color.g == 255 && color.b == 255 {
        Some(Colours::WHITE)
    } else if color.r == 255 && color.g == 242 && color.b == 0 {
        Some(Colours::YELLOW)
    } else if color.r == 255 && color.g == 0 && color.b == 0 {
        Some(Colours::RED)
    } else if color.r == 0 && color.g == 0 && color.b == 217 {
        Some(Colours::BLUE)
    } else if color.r == 0 && color.g == 228 && color.b == 0 {
        Some(Colours::GREEN)
    } else {
        None
    }
}

/// The colour stored under `index`; an index that names no colour yields
/// black.
pub open spec fn spec_lookup(index: int) -> Rgba8 {
    if index == 1 {
        Colours::WHITE.spec_rgba()
    } else if index == 2 {
        Colours::YELLOW.spec_rgba()
    } else if index == 3 {
        Colours::RED.spec_rgba()
    } else if index == 5 {
        Colours::BLUE.spec_rgba()
    } else if index == 6 {
        Colours::GREEN.spec_rgba()
    } else {
        Colours::BLACK.spec_rgba()
    }
}

/// Distance between two colours in red, green and blue, squared.  Comparing
/// squares orders colours exactly as comparing the distances themselves.
fn color_distance(c1: &Rgba8, c2: &Rgba8) -> (d: u32)
    ensures
        d == distance_squared(*c1, *c2),
        d <= 195075,
{
    let r: i32 = c1.r as i32 - c2.r as i32;
    let g: i32 = c1.g as i32 - c2.g as i32;
    let b: i32 = c1.b as i32 - c2.b as i32;
    assert(0 <= r * r <= 65025) by (nonlinear_arith)
        requires
            -255 <= r <= 255,
    ;
    assert(0 <= g * g <= 65025) by (nonlinear_arith)
        requires
            -255 <= g <= 255,
    ;
    assert(0 <= b * b <= 65025) by (nonlinear_arith)
        requires
            -255 <= b <= 255,
    ;
    (r * r + g * g + b * b) as u32
}

/// The colours in the order in which the quantiser scans them.
pub open spec fn scan_order() -> Seq<Colours> {
    seq![
        Colours::BLACK,
        Colours::WHITE,
        Colours::YELLOW,
        Colours::RED,
        Colours::BLUE,
        Colours::GREEN,
    ]
}

/// `best` is the nearest colour among the first `n` of the scan order.
spec fn is_nearest_among(color: Rgba8, best: Colours, n: int) -> bool {
    &&& best.rank() < n
    &&& forall|other: Colours|
        #[trigger] other.rank() < n ==> distance_squared(color, best.spec_rgba())
            <= distance_squared(color, other.spec_rgba())
    &&& forall|other: Colours|
        #[trigger] other.rank() < best.rank() ==> distance_squared(color, best.spec_rgba())
            < distance_squared(color, other.spec_rgba())
}

proof fn lemma_rank_of_scan_order(i: int)
    requires
        0 <= i < 6,
    ensures
        scan_order()[i].rank() == i,
        forall|other: Colours| other.rank() == i ==> other == scan_order()[i],
{
}

/// At most one colour is nearest.
pub proof fn lemma_nearest_unique(color: Rgba8, a: Colours, b: Colours)
    requires
        is_nearest(color, a),
        is_nearest(color, b),
    ensures
        a == b,
{
    if a.rank() < b.rank() {
        assert(distance_squared(color, b.spec_rgba()) < distance_squared(color, a.spec_rgba()));
        assert(distance_squared(color, a.spec_rgba()) <= distance_squared(color, b.spec_rgba()));
    } else if b.rank() < a.rank() {
        assert(distance_squared(color, a.spec_rgba()) < distance_squared(color, b.spec_rgba()));
        assert(distance_squared(color, b.spec_rgba()) <= distance_squared(color, a.spec_rgba()));
    }
}

/// The quantiser for the panel's palette.
#[derive(Clone, Copy, Debug)]
pub struct Palette;

impl Palette {
    /// The palette colour nearest to `color`.
    pub fn closest(&self, color: &Rgba8) -> (best: Colours)
        ensures
            is_nearest(*color, best),
            best == nearest(*color),
            palette_colour_of(*color) matches Some(same) ==> best == same,
    {
        let colors = [
            Colours::BLACK,
            Colours::WHITE,
            Colours::YELLOW,
            Colours::RED,
            Colours::BLUE,
            Colours::GREEN,
        ];
        assert(colors@ =~= scan_order());
        let mut best = Colours::BLACK;
        let mut min_distance: u32 = color_distance(color, &best.as_rgba());
        let mut i: usize = 1;
        while i < 6
            invariant
                1 <= i <= 6,
                colors@ == scan_order(),
                min_distance == distance_squared(*color, best.spec_rgba()),
                is_nearest_among(*color, best, i as int),
            decreases 6 - i,
        {
            let candidate = colors[i];
            let distance = color_distance(color, &candidate.as_rgba());
            proof {
                lemma_rank_of_scan_order(i as int);
            }
            if distance < min_distance {
                min_distance = distance;
                best = candidate;
            }
            i += 1;
        }
        proof {
            lemma_nearest_among_all(*color, best);
            lemma_nearest_exists(*color);
            lemma_nearest_unique(*color, best, nearest(*color));
            law_palette_colours_are_fixed(*color);
        }
        best
    }

    /// Index of the palette colour nearest to `color`.
    pub fn index_of_rgba(&self, color: &Rgba8) -> (i: usize)
        ensures
            is_nearest(*color, nearest(*color)),
            i == nearest(*color).spec_index(),
            is_legal_index(i as int),
            palette_colour_of(*color) matches Some(same) ==> i == same.spec_index(),
    {
        self.closest(color).index() as usize
    }

    /// Replaces `color` by the palette colour nearest to it.
    pub fn map_color(&self, color: &mut Rgba8)
        ensures
            *final(color) == nearest(*old(color)).spec_rgba(),
    {
        let idx = self.index_of_rgba(color);
        *color = match self.lookup_rgba(idx) {
            Some(c) => c,
            None => Colours::BLACK.as_rgba(),
        };
    }

    /// The colour stored under `index`.  Every index has one: an index that
    /// names no colour of the panel falls back to black.
    pub fn lookup_rgba(&self, index: usize) -> (color: Option<Rgba8>)
        ensures
            color == Some(spec_lookup(index as int)),
    {
        let color = match index {
            0 => Colours::BLACK.as_rgba(),
            1 => Colours::WHITE.as_rgba(),
            2 => Colours::YELLOW.as_rgba(),
            3 => Colours::RED.as_rgba(),
            5 => Colours::BLUE.as_rgba(),
            6 => Colours::GREEN.as_rgba(),
            _ => Colours::BLACK.as_rgba(),
        };
        Some(color)
    }

    /// This palette answers a lookup for every index.
    pub fn has_lookup(&self) -> (yes: bool)
        ensures
            yes,
    {
        true
    }
}

/// The colour that the quantiser maps to is the nearest: none is nearer,
/// and every colour of lower rank is strictly farther.
pub proof fn lemma_nearest_exists(color: Rgba8)
    ensures
        is_nearest(color, nearest(color)),
{
    let c0 = Colours::BLACK;
    let c1 = nearer(color, c0, Colours::WHITE);
    let c2 = nearer(color, c1, Colours::YELLOW);
    let c3 = nearer(color, c2, Colours::RED);
    let c4 = nearer(color, c3, Colours::BLUE);
    let c5 = nearer(color, c4, Colours::GREEN);
    assert(is_nearest_among(color, c0, 1));
    assert(is_nearest_among(color, c1, 2));
    assert(is_nearest_among(color, c2, 3));
    assert(is_nearest_among(color, c3, 4));
    assert(is_nearest_among(color, c4, 5));
    assert(is_nearest_among(color, c5, 6));
    lemma_nearest_among_all(color, c5);
}

proof fn lemma_nearest_among_all(color: Rgba8, best: Colours)
    requires
        is_nearest_among(color, best, 6),
    ensures
        is_nearest(color, best),
{
    assert forall|other: Colours|
        distance_squared(color, best.spec_rgba()) <= distance_squared(
            color,
            #[trigger] other.spec_rgba(),
        ) by {
        assert(other.rank() < 6);
    }
}

/// Quantising a colour of the palette gives that colour back, whatever its
/// alpha.
pub proof fn law_palette_colours_are_fixed(color: Rgba8)
    ensures
        palette_colour_of(color) matches Some(same) ==> nearest(color) == same,
        forall|c: Colours| color == #[trigger] c.spec_rgba() ==> nearest(color) == c,
{
    lemma_nearest_exists(color);
    let best = nearest(color);
    match palette_colour_of(color) {
        Some(same) => {
            assert(distance_squared(color, best.spec_rgba()) <= distance_squared(
                color,
                same.spec_rgba(),
            ));
            lemma_same_rgb_is_no_distance(color, same.spec_rgba());
            lemma_zero_distance_is_same_colour(color, best, same);
        },
        None => {},
    }
}

proof fn lemma_same_rgb_is_no_distance(a: Rgba8, b: Rgba8)
    requires
        a.r == b.r,
        a.g == b.g,
        a.b == b.b,
    ensures
        distance_squared(a, b) == 0,
{
}

proof fn lemma_zero_distance_is_same_colour(color: Rgba8, a: Colours, b: Colours)
    requires
        distance_squared(color, b.spec_rgba()) == 0,
        distance_squared(color, a.spec_rgba()) <= 0,
    ensures
        a == b,
{
    let x = color;
    let y = a.spec_rgba();
    let z = b.spec_rgba();
    lemma_no_distance_is_same_rgb(x, y);
    lemma_no_distance_is_same_rgb(x, z);
}

proof fn lemma_no_distance_is_same_rgb(x: Rgba8, y: Rgba8)
    requires
        distance_squared(x, y) <= 0,
    ensures
        x.r == y.r,
        x.g == y.g,
        x.b == y.b,
{
    let dr = x.r - y.r;
    let dg = x.g - y.g;
    let db = x.b - y.b;
    assert(dr * dr >= 0 && (dr * dr == 0 ==> dr == 0)) by (nonlinear_arith);
    assert(dg * dg >= 0 && (dg * dg == 0 ==> dg == 0)) by (nonlinear_arith);
    assert(db * db >= 0 && (db * db == 0 ==> db == 0)) by (nonlinear_arith);
}

/// Whatever the colour, the quantiser answers with one of the six indices
/// the panel defines.
pub proof fn law_quantiser_index_is_legal(color: Rgba8)
    ensures
        is_legal_index(nearest(color).spec_index() as int),
{
}

/// Looking up the index of a palette colour gives the colour back.
pub proof fn law_lookup_inverts_index(c: Colours)
    ensures
        spec_lookup(c.spec_index() as int) == c.spec_rgba(),
{
}

} // verus!
