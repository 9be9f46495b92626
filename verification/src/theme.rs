//! Theme registry: a fixed ordered catalog of named color palettes. The
//! library tracks palette identity and selection order; the palette color
//! values themselves are applied by the renderer outside the library.
use vstd::prelude::*;
use vstd::string::StringExecFns;

verus! {

/// The named palettes, in catalog order.
#[derive(Debug, Clone, Copy, PartialEq, Eq, Structural)]
pub enum ThemeName {
    AbletonDisco,
    BrownSugar,
    LadyLike,
    MateriaMatter,
    RatatuiRules,
    TerminalSpirit,
    UbuntuJoy,
    WhiteSur,
}

/// The catalog, in its fixed order.
pub open spec fn spec_theme_catalog() -> Seq<ThemeName> {
    seq![
        ThemeName::AbletonDisco,
        ThemeName::BrownSugar,
        ThemeName::LadyLike,
        ThemeName::MateriaMatter,
        ThemeName::RatatuiRules,
        ThemeName::TerminalSpirit,
        ThemeName::UbuntuJoy,
        ThemeName::WhiteSur,
    ]
}

/// The display name of a palette.
pub open spec fn spec_theme_display_name(t: ThemeName) -> Seq<char> {
    match t {
        ThemeName::AbletonDisco => "Ableton Disco"@,
        ThemeName::BrownSugar => "Brown Sugar"@,
        ThemeName::LadyLike => "Lady Like"@,
        ThemeName::MateriaMatter => "Materia Matter"@,
        ThemeName::RatatuiRules => "Ratatui Rules"@,
        ThemeName::TerminalSpirit => "Terminal Spirit"@,
        ThemeName::UbuntuJoy => "Ubuntu Joy"@,
        ThemeName::WhiteSur => "White Sur"@,
    }
}

/// The first index of `t` at or after `i`, if any.
pub open spec fn spec_find_theme_from(s: Seq<ThemeName>, t: ThemeName, i: int) -> Option<int>
    decreases s.len() - i,
{
    if i < 0 || i >= s.len() {
        None
    } else if s[i] == t {
        Some(i)
    } else {
        spec_find_theme_from(s, t, i + 1)
    }
}

/// The startup palette index: the catalog position of the named default
/// (Terminal Spirit), or the first entry if it is absent.
pub open spec fn spec_default_theme_index(s: Seq<ThemeName>) -> int {
    match spec_find_theme_from(s, ThemeName::TerminalSpirit, 0) {
        Some(i) => i,
        None => 0,
    }
}

impl ThemeName {
    /// Every palette of the catalog, in order.
    pub fn all() -> (v: Vec<ThemeName>)
        ensures
            v@ == spec_theme_catalog(),
    {
        let v = vec![
            ThemeName::AbletonDisco,
            ThemeName::BrownSugar,
            ThemeName::LadyLike,
            ThemeName::MateriaMatter,
            ThemeName::RatatuiRules,
            ThemeName::TerminalSpirit,
            ThemeName::UbuntuJoy,
            ThemeName::WhiteSur,
        ];
        proof {
            assert(v@ =~= spec_theme_catalog());
        }
        v
    }

    /// The display name of this palette.
    pub fn display_name(&self) -> (r: String)
        ensures
            r@ == spec_theme_display_name(*self),
    {
        match self {
            ThemeName::AbletonDisco => "Ableton Disco".to_owned(),
            ThemeName::BrownSugar => "Brown Sugar".to_owned(),
            ThemeName::LadyLike => "Lady Like".to_owned(),
            ThemeName::MateriaMatter => "Materia Matter".to_owned(),
            ThemeName::RatatuiRules => "Ratatui Rules".to_owned(),
            ThemeName::TerminalSpirit => "Terminal Spirit".to_owned(),
            ThemeName::UbuntuJoy => "Ubuntu Joy".to_owned(),
            ThemeName::WhiteSur => "White Sur".to_owned(),
        }
    }
}

proof fn lemma_find_theme_in_range(s: Seq<ThemeName>, t: ThemeName, i: int)
    ensures
        match spec_find_theme_from(s, t, i) {
            Some(k) => i <= k < s.len(),
            None => true,
        },
    decreases s.len() - i,
{
    if i < 0 || i >= s.len() {
    } else if s[i] == t {
    } else {
        lemma_find_theme_in_range(s, t, i + 1);
    }
}

/// The default palette index lies inside the catalog.
pub proof fn lemma_default_theme_index_in_range()
    ensures
        0 <= spec_default_theme_index(spec_theme_catalog()) < spec_theme_catalog().len(),
{
    lemma_find_theme_in_range(spec_theme_catalog(), ThemeName::TerminalSpirit, 0);
    assert(spec_theme_catalog().len() == 8);
}

/// The startup palette index within the given catalog.
pub fn default_theme_index(themes: &Vec<ThemeName>) -> (i: usize)
    ensures
        i == spec_default_theme_index(themes@),
        themes@.len() > 0 ==> i < themes@.len(),
        themes@.len() == 0 ==> i == 0,
{
    let mut i: usize = 0;
    while i < themes.len()
        invariant
            i <= themes.len(),
            spec_find_theme_from(themes@, ThemeName::TerminalSpirit, 0) == spec_find_theme_from(
                themes@,
                ThemeName::TerminalSpirit,
                i as int,
            ),
        decreases themes.len() - i,
    {
        if themes[i] == ThemeName::TerminalSpirit {
            return i;
        }
        i = i + 1;
    }
    0
}

} // verus!
