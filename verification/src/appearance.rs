//! Appearance settings: how the wallpaper is fitted, which corner the overlay
//! image sits in, and the colour themes.
//!
//! Each choice is persisted in `config.json` by a stable id; an unknown id
//! falls back to the default choice.
use vstd::prelude::*;

use crate::text::str_eq;

verus! {

/// How the background image is mapped onto the window.
#[derive(Clone, Copy, Debug, PartialEq, Eq, Structural)]
pub enum Fit {
    /// Fill the window, cropping whatever overflows. Preserves aspect ratio.
    Cover,
    /// Fit entirely inside the window, letterboxing. Preserves aspect ratio.
    Contain,
    /// Fill the window exactly, distorting the image.
    Stretch,
}

/// The fit mode persisted under `id` (`Cover` for anything unknown).
pub open spec fn spec_fit_from_id(id: Seq<char>) -> Fit {
    if id == "contain"@ {
        Fit::Contain
    } else if id == "stretch"@ {
        Fit::Stretch
    } else {
        Fit::Cover
    }
}

/// The persisted id of a fit mode.
pub open spec fn spec_fit_id(f: Fit) -> Seq<char> {
    match f {
        Fit::Cover => "cover"@,
        Fit::Contain => "contain"@,
        Fit::Stretch => "stretch"@,
    }
}

impl Fit {
    /// Every fit mode, in the order the settings dropdown lists them.
    pub fn all() -> (r: [Fit; 3])
        ensures
            r@ == seq![Fit::Cover, Fit::Contain, Fit::Stretch],
    {
        let r = [Fit::Cover, Fit::Contain, Fit::Stretch];
        assert(r@ =~= seq![Fit::Cover, Fit::Contain, Fit::Stretch]);
        r
    }

    pub fn from_id(s: &str) -> (f: Fit)
        ensures
            f == spec_fit_from_id(s@),
    {
        if str_eq(s, "contain") {
            Fit::Contain
        } else if str_eq(s, "stretch") {
            Fit::Stretch
        } else {
            Fit::Cover
        }
    }

    pub fn id(self) -> (r: &'static str)
        ensures
            r@ == spec_fit_id(self),
    {
        match self {
            Fit::Cover => "cover",
            Fit::Contain => "contain",
            Fit::Stretch => "stretch",
        }
    }

    pub fn label(self) -> (r: &'static str)
        ensures
            r@ == match self {
                Fit::Cover => "Fill (crop)"@,
                Fit::Contain => "Fit (letterbox)"@,
                Fit::Stretch => "Stretch"@,
            },
    {
        match self {
            Fit::Cover => "Fill (crop)",
            Fit::Contain => "Fit (letterbox)",
            Fit::Stretch => "Stretch",
        }
    }
}

/// Which corner of the window the overlay image sits in.
#[derive(Clone, Copy, Debug, PartialEq, Eq, Structural)]
pub enum Corner {
    BottomRight,
    BottomLeft,
    TopRight,
    TopLeft,
}

/// The corner persisted under `id` (`BottomRight` for anything unknown).
pub open spec fn spec_corner_from_id(id: Seq<char>) -> Corner {
    if id == "bottom_left"@ {
        Corner::BottomLeft
    } else if id == "top_right"@ {
        Corner::TopRight
    } else if id == "top_left"@ {
        Corner::TopLeft
    } else {
        Corner::BottomRight
    }
}

/// The persisted id of a corner.
pub open spec fn spec_corner_id(c: Corner) -> Seq<char> {
    match c {
        Corner::BottomRight => "bottom_right"@,
        Corner::BottomLeft => "bottom_left"@,
        Corner::TopRight => "top_right"@,
        Corner::TopLeft => "top_left"@,
    }
}

impl Corner {
    /// Every corner, in the order the settings dropdown lists them.
    pub fn all() -> (r: [Corner; 4])
        ensures
            r@ == seq![Corner::BottomRight, Corner::BottomLeft, Corner::TopRight, Corner::TopLeft],
    {
        let r = [Corner::BottomRight, Corner::BottomLeft, Corner::TopRight, Corner::TopLeft];
        assert(r@ =~= seq![Corner::BottomRight, Corner::BottomLeft, Corner::TopRight, Corner::TopLeft]);
        r
    }

    pub fn from_id(s: &str) -> (c: Corner)
        ensures
            c == spec_corner_from_id(s@),
    {
        if str_eq(s, "bottom_left") {
            Corner::BottomLeft
        } else if str_eq(s, "top_right") {
            Corner::TopRight
        } else if str_eq(s, "top_left") {
            Corner::TopLeft
        } else {
            Corner::BottomRight
        }
    }

    pub fn id(self) -> (r: &'static str)
        ensures
            r@ == spec_corner_id(self),
    {
        match self {
            Corner::BottomRight => "bottom_right",
            Corner::BottomLeft => "bottom_left",
            Corner::TopRight => "top_right",
            Corner::TopLeft => "top_left",
        }
    }

    pub fn label(self) -> (r: &'static str)
        ensures
            r@ == match self {
                Corner::BottomRight => "Bottom right"@,
                Corner::BottomLeft => "Bottom left"@,
                Corner::TopRight => "Top right"@,
                Corner::TopLeft => "Top left"@,
            },
    {
        match self {
            Corner::BottomRight => "Bottom right",
            Corner::BottomLeft => "Bottom left",
            Corner::TopRight => "Top right",
            Corner::TopLeft => "Top left",
        }
    }
}

/// An opaque RGB colour.
#[derive(Clone, Copy, Debug, PartialEq, Eq, Structural)]
pub struct Rgb {
    pub r: u8,
    pub g: u8,
    pub b: u8,
}

/// Shorthand for an [`Rgb`].
pub open spec fn rgb(r: u8, g: u8, b: u8) -> Rgb {
    Rgb { r, g, b }
}

/// A colour theme: the widget colours and the animated backdrop's colours.
///
/// Panel colours are opaque; their alpha comes from the user's panel-opacity
/// setting when the theme is applied.
#[derive(Clone, Copy, Debug)]
pub struct Palette {
    /// Stable identifier persisted in `config.json`.
    pub id: &'static str,
    /// Label shown in the settings dropdown.
    pub name: &'static str,
    /// Vertical gradient of the deep background.
    pub space_top: Rgb,
    pub space_bottom: Rgb,
    /// The two nebula cloud tints.
    pub nebula_a: Rgb,
    pub nebula_b: Rgb,
    /// Starfield colour.
    pub star: Rgb,
    /// Cursor glow / trail, and the widget accent colour.
    pub accent: Rgb,
    /// Falling rain streaks.
    pub rain: Rgb,
    /// Base panel colour.
    pub panel: Rgb,
    /// Slightly darker base colour for inset section frames.
    pub inset: Rgb,
    /// Primary text colour.
    pub text: Rgb,
}

/// Alpha of inset section frames for a given panel alpha: a third of the way
/// from the panel's alpha to opaque, so input fields stay findable even at
/// low panel opacity.
pub fn inset_alpha(panel_alpha: u8) -> (a: u8)
    ensures
        a == panel_alpha + (255 - panel_alpha) / 3,
        panel_alpha <= a,
{
    panel_alpha + (255 - panel_alpha) / 3
}

/// The first palette in `themes` whose id is `id`, or the first palette when
/// none matches.
pub open spec fn spec_by_id(themes: Seq<Palette>, id: Seq<char>) -> Palette {
    if exists|i: int| 0 <= i < themes.len() && #[trigger] themes[i].id@ == id {
        let i = choose|i: int|
            0 <= i < themes.len() && #[trigger] themes[i].id@ == id && forall|j: int|
                0 <= j < i ==> #[trigger] themes[j].id@ != id;
        themes[i]
    } else {
        themes[0]
    }
}

/// The selectable themes, in dropdown order.
pub open spec fn spec_themes() -> Seq<Palette> {
    seq![
        Palette {
            id: "cosmos",
            name: "Cosmos",
            space_top: rgb(8, 10, 28),
            space_bottom: rgb(3, 4, 12),
            nebula_a: rgb(70, 110, 220),
            nebula_b: rgb(140, 90, 220),
            star: rgb(220, 232, 255),
            accent: rgb(120, 190, 255),
            rain: rgb(150, 200, 255),
            panel: rgb(14, 18, 40),
            inset: rgb(9, 12, 28),
            text: rgb(226, 234, 250),
        },
        Palette {
            id: "nebula",
            name: "Nebula",
            space_top: rgb(26, 8, 32),
            space_bottom: rgb(8, 3, 12),
            nebula_a: rgb(220, 80, 170),
            nebula_b: rgb(120, 60, 220),
            star: rgb(255, 226, 245),
            accent: rgb(240, 130, 210),
            rain: rgb(235, 160, 220),
            panel: rgb(32, 14, 40),
            inset: rgb(22, 9, 28),
            text: rgb(246, 228, 244),
        },
        Palette {
            id: "aurora",
            name: "Aurora",
            space_top: rgb(4, 26, 26),
            space_bottom: rgb(2, 10, 12),
            nebula_a: rgb(60, 220, 170),
            nebula_b: rgb(60, 140, 220),
            star: rgb(224, 255, 244),
            accent: rgb(90, 230, 190),
            rain: rgb(140, 240, 210),
            panel: rgb(10, 32, 32),
            inset: rgb(6, 22, 23),
            text: rgb(224, 246, 240),
        },
        Palette {
            id: "abyss",
            name: "Abyss",
            space_top: rgb(4, 14, 24),
            space_bottom: rgb(1, 4, 8),
            nebula_a: rgb(30, 90, 150),
            nebula_b: rgb(20, 50, 110),
            star: rgb(190, 214, 236),
            accent: rgb(80, 160, 220),
            rain: rgb(110, 170, 220),
            panel: rgb(8, 18, 30),
            inset: rgb(5, 12, 21),
            text: rgb(212, 226, 240),
        },
        Palette {
            id: "ember",
            name: "Ember",
            space_top: rgb(28, 12, 6),
            space_bottom: rgb(10, 4, 2),
            nebula_a: rgb(230, 120, 50),
            nebula_b: rgb(180, 50, 60),
            star: rgb(255, 236, 214),
            accent: rgb(250, 160, 90),
            rain: rgb(240, 170, 120),
            panel: rgb(32, 16, 10),
            inset: rgb(22, 10, 6),
            text: rgb(248, 232, 220),
        },
        Palette {
            id: "slate",
            name: "Slate (plain dark)",
            space_top: rgb(24, 24, 27),
            space_bottom: rgb(16, 16, 18),
            nebula_a: rgb(70, 70, 80),
            nebula_b: rgb(50, 50, 58),
            star: rgb(200, 200, 210),
            accent: rgb(110, 170, 230),
            rain: rgb(150, 150, 165),
            panel: rgb(30, 30, 34),
            inset: rgb(22, 22, 26),
            text: rgb(226, 226, 232),
        },
    ]
}

/// The selectable themes, in dropdown order.
pub fn themes() -> (r: Vec<Palette>)
    ensures
        r@ == spec_themes(),
{
    let mut v: Vec<Palette> = Vec::new();
    v.push(Palette {
        id: "cosmos",
        name: "Cosmos",
        space_top: Rgb { r: 8, g: 10, b: 28 },
        space_bottom: Rgb { r: 3, g: 4, b: 12 },
        nebula_a: Rgb { r: 70, g: 110, b: 220 },
        nebula_b: Rgb { r: 140, g: 90, b: 220 },
        star: Rgb { r: 220, g: 232, b: 255 },
        accent: Rgb { r: 120, g: 190, b: 255 },
        rain: Rgb { r: 150, g: 200, b: 255 },
        panel: Rgb { r: 14, g: 18, b: 40 },
        inset: Rgb { r: 9, g: 12, b: 28 },
        text: Rgb { r: 226, g: 234, b: 250 },
    });
    v.push(Palette {
        id: "nebula",
        name: "Nebula",
        space_top: Rgb { r: 26, g: 8, b: 32 },
        space_bottom: Rgb { r: 8, g: 3, b: 12 },
        nebula_a: Rgb { r: 220, g: 80, b: 170 },
        nebula_b: Rgb { r: 120, g: 60, b: 220 },
        star: Rgb { r: 255, g: 226, b: 245 },
        accent: Rgb { r: 240, g: 130, b: 210 },
        rain: Rgb { r: 235, g: 160, b: 220 },
        panel: Rgb { r: 32, g: 14, b: 40 },
        inset: Rgb { r: 22, g: 9, b: 28 },
        text: Rgb { r: 246, g: 228, b: 244 },
    });
    v.push(Palette {
        id: "aurora",
        name: "Aurora",
        space_top: Rgb { r: 4, g: 26, b: 26 },
        space_bottom: Rgb { r: 2, g: 10, b: 12 },
        nebula_a: Rgb { r: 60, g: 220, b: 170 },
        nebula_b: Rgb { r: 60, g: 140, b: 220 },
        star: Rgb { r: 224, g: 255, b: 244 },
        accent: Rgb { r: 90, g: 230, b: 190 },
        rain: Rgb { r: 140, g: 240, b: 210 },
        panel: Rgb { r: 10, g: 32, b: 32 },
        inset: Rgb { r: 6, g: 22, b: 23 },
        text: Rgb { r: 224, g: 246, b: 240 },
    });
    v.push(Palette {
        id: "abyss",
        name: "Abyss",
        space_top: Rgb { r: 4, g: 14, b: 24 },
        space_bottom: Rgb { r: 1, g: 4, b: 8 },
        nebula_a: Rgb { r: 30, g: 90, b: 150 },
        nebula_b: Rgb { r: 20, g: 50, b: 110 },
        star: Rgb { r: 190, g: 214, b: 236 },
        accent: Rgb { r: 80, g: 160, b: 220 },
        rain: Rgb { r: 110, g: 170, b: 220 },
        panel: Rgb { r: 8, g: 18, b: 30 },
        inset: Rgb { r: 5, g: 12, b: 21 },
        text: Rgb { r: 212, g: 226, b: 240 },
    });
    v.push(Palette {
        id: "ember",
        name: "Ember",
        space_top: Rgb { r: 28, g: 12, b: 6 },
        space_bottom: Rgb { r: 10, g: 4, b: 2 },
        nebula_a: Rgb { r: 230, g: 120, b: 50 },
        nebula_b: Rgb { r: 180, g: 50, b: 60 },
        star: Rgb { r: 255, g: 236, b: 214 },
        accent: Rgb { r: 250, g: 160, b: 90 },
        rain: Rgb { r: 240, g: 170, b: 120 },
        panel: Rgb { r: 32, g: 16, b: 10 },
        inset: Rgb { r: 22, g: 10, b: 6 },
        text: Rgb { r: 248, g: 232, b: 220 },
    });
    v.push(Palette {
        id: "slate",
        name: "Slate (plain dark)",
        space_top: Rgb { r: 24, g: 24, b: 27 },
        space_bottom: Rgb { r: 16, g: 16, b: 18 },
        nebula_a: Rgb { r: 70, g: 70, b: 80 },
        nebula_b: Rgb { r: 50, g: 50, b: 58 },
        star: Rgb { r: 200, g: 200, b: 210 },
        accent: Rgb { r: 110, g: 170, b: 230 },
        rain: Rgb { r: 150, g: 150, b: 165 },
        panel: Rgb { r: 30, g: 30, b: 34 },
        inset: Rgb { r: 22, g: 22, b: 26 },
        text: Rgb { r: 226, g: 226, b: 232 },
    });
    assert(v@ =~= spec_themes());
    v
}

/// Look a palette up among `themes` by its persisted id, falling back to the
/// first theme.
pub fn palette_by_id(themes: &Vec<Palette>, id: &str) -> (p: Palette)
    requires
        themes@.len() > 0,
    ensures
        p == spec_by_id(themes@, id@),
{
    let mut i: usize = 0;
    while i < themes.len()
        invariant
            i <= themes@.len(),
            forall|j: int| 0 <= j < i ==> #[trigger] themes@[j].id@ != id@,
        decreases themes@.len() - i,
    {
        if str_eq(themes[i].id, id) {
            proof {
                let k = choose|k: int|
                    0 <= k < themes@.len() && #[trigger] themes@[k].id@ == id@ && forall|j: int|
                        0 <= j < k ==> #[trigger] themes@[j].id@ != id@;
                assert(themes@[i as int].id@ == id@);
                if k < i {
                    assert(themes@[k].id@ != id@);
                } else if k > i {
                    assert(themes@[i as int].id@ != id@);
                }
            }
            return themes[i];
        }
        i = i + 1;
    }
    themes[0]
}

/// Look a palette up by its persisted id, falling back to the first theme.
///
/// Returns a copy of the palette rather than a reference into a static
/// table.
pub fn by_id(id: &str) -> (p: Palette)
    ensures
        p == spec_by_id(spec_themes(), id@),
{
    let all = themes();
    palette_by_id(&all, id)
}

/// Reading back the id a fit mode is saved under gives the same fit mode.
pub proof fn fit_id_round_trip(f: Fit)
    ensures
        spec_fit_from_id(spec_fit_id(f)) == f,
{
    reveal_strlit("cover");
    reveal_strlit("contain");
    reveal_strlit("stretch");
    assert("cover"@.len() == 5);
    assert("contain"@.len() == 7);
    assert("stretch"@[0] == 's');
    assert("contain"@[0] == 'c');
}

/// Reading back the id a corner is saved under gives the same corner.
pub proof fn corner_id_round_trip(c: Corner)
    ensures
        spec_corner_from_id(spec_corner_id(c)) == c,
{
    reveal_strlit("bottom_right");
    reveal_strlit("bottom_left");
    reveal_strlit("top_right");
    reveal_strlit("top_left");
    assert("bottom_right"@.len() == 12);
    assert("bottom_left"@.len() == 11);
    assert("top_right"@.len() == 9);
    assert("top_left"@.len() == 8);
}

/// The six theme ids are distinct.
proof fn lemma_theme_ids_distinct()
    ensures
        forall|a: int, b: int|
            0 <= a < 6 && 0 <= b < 6 && a != b ==> #[trigger] spec_themes()[a].id@ != #[trigger] spec_themes()[b].id@,
{
    reveal_strlit("cosmos");
    reveal_strlit("nebula");
    reveal_strlit("aurora");
    reveal_strlit("abyss");
    reveal_strlit("ember");
    reveal_strlit("slate");
    let t = spec_themes();
    assert(t[0].id@.len() == 6 && t[0].id@[0] == 'c');
    assert(t[1].id@.len() == 6 && t[1].id@[0] == 'n');
    assert(t[2].id@.len() == 6 && t[2].id@[0] == 'a');
    assert(t[3].id@.len() == 5 && t[3].id@[0] == 'a');
    assert(t[4].id@.len() == 5 && t[4].id@[0] == 'e');
    assert(t[5].id@.len() == 5 && t[5].id@[0] == 's');
}

/// Looking a theme up by its own id finds that theme.
pub proof fn theme_id_round_trip(i: int)
    requires
        0 <= i < spec_themes().len(),
    ensures
        spec_by_id(spec_themes(), spec_themes()[i].id@) == spec_themes()[i],
{
    lemma_theme_ids_distinct();
    let t = spec_themes();
    let id = t[i].id@;
    assert(t.len() == 6);
    assert(exists|k: int| 0 <= k < t.len() && #[trigger] t[k].id@ == id);
    let k = choose|k: int|
        0 <= k < t.len() && #[trigger] t[k].id@ == id && forall|j: int| 0 <= j < k ==> #[trigger] t[j].id@ != id;
    assert(forall|j: int| 0 <= j < i ==> #[trigger] t[j].id@ != id);
    assert(0 <= k < t.len() && t[k].id@ == id);
    assert(k == i);
}

} // verus!
