//! The configuration and the choice of a wallpaper from it.

use vstd::prelude::*;

use crate::during::During;
use crate::error::Error;
use crate::light::Light;
use crate::position::{light_of_position, SolarPosition};

verus! {

/// The place on Earth for which the sun's position is taken, in
/// microdegrees: latitude north and longitude east.
#[derive(Clone, Copy, Debug, PartialEq, Eq, Structural)]
pub struct Location {
    pub latitude: i64,
    pub longitude: i64,
}

/// How a chosen wallpaper is put on the desktop.
#[derive(Clone, Copy, Debug, PartialEq, Eq, Structural)]
pub enum Method {
    Kde,
}

/// One configured wallpaper.
#[derive(Clone, Debug)]
pub struct Wallpaper {
    pub during: During,
    pub path: String,
}

/// A whole configuration. The order of the wallpapers counts: of those
/// whose condition is met the first is chosen.
#[derive(Clone, Debug)]
pub struct Config {
    pub location: Location,
    pub method: Method,
    pub wallpapers: Vec<Wallpaper>,
}

/// Whether the condition of the wallpaper at `index` is met and that of no
/// wallpaper before it.
pub open spec fn is_first_met(
    wallpapers: Seq<Wallpaper>,
    index: int,
    light: Light,
    elevation: int,
    azimuth: int,
) -> bool {
    &&& 0 <= index < wallpapers.len()
    &&& wallpapers[index].during@.met(light, elevation, azimuth)
    &&& forall|j: int|
        0 <= j < index ==> !(#[trigger] wallpapers[j]).during@.met(light, elevation, azimuth)
}

/// Whether the condition of no wallpaper is met.
pub open spec fn none_met(
    wallpapers: Seq<Wallpaper>,
    light: Light,
    elevation: int,
    azimuth: int,
) -> bool {
    forall|j: int|
        0 <= j < wallpapers.len() ==> !(#[trigger] wallpapers[j]).during@.met(
            light,
            elevation,
            azimuth,
        )
}

/// Whether the wallpaper at `index` is a fallback and none before it is.
pub open spec fn is_first_fallback(wallpapers: Seq<Wallpaper>, index: int) -> bool {
    &&& 0 <= index < wallpapers.len()
    &&& wallpapers[index].during@ is Any
    &&& forall|j: int| 0 <= j < index ==> !((#[trigger] wallpapers[j]).during@ is Any)
}

/// Whether no wallpaper is a fallback.
pub open spec fn no_fallback(wallpapers: Seq<Wallpaper>) -> bool {
    forall|j: int| 0 <= j < wallpapers.len() ==> !((#[trigger] wallpapers[j]).during@ is Any)
}

/// Whether `index` is the place of the wallpaper to show: the first whose
/// condition is met, wherever a fallback stands; or, where no condition is
/// met, the first fallback.
pub open spec fn is_selected(
    wallpapers: Seq<Wallpaper>,
    index: int,
    light: Light,
    elevation: int,
    azimuth: int,
) -> bool {
    ||| is_first_met(wallpapers, index, light, elevation, azimuth)
    ||| (none_met(wallpapers, light, elevation, azimuth) && is_first_fallback(wallpapers, index))
}

/// Whether there is nothing to show: no condition is met and there is no
/// fallback.
pub open spec fn nothing_selected(
    wallpapers: Seq<Wallpaper>,
    light: Light,
    elevation: int,
    azimuth: int,
) -> bool {
    none_met(wallpapers, light, elevation, azimuth) && no_fallback(wallpapers)
}

/// At most one place is selected.
pub proof fn lemma_selection_unique(
    wallpapers: Seq<Wallpaper>,
    i: int,
    j: int,
    light: Light,
    elevation: int,
    azimuth: int,
)
    requires
        is_selected(wallpapers, i, light, elevation, azimuth),
        is_selected(wallpapers, j, light, elevation, azimuth),
    ensures
        i == j,
{
    if i < j {
        assert(wallpapers[i].during@.met(light, elevation, azimuth) || wallpapers[i].during@ is Any);
    } else if j < i {
        assert(wallpapers[j].during@.met(light, elevation, azimuth) || wallpapers[j].during@ is Any);
    }
}

/// A fallback never stands in the way of a wallpaper whose condition is
/// met, whether it was written before it or after: the place selected
/// stays the same, counted among the others, when a fallback is put in
/// anywhere.
pub proof fn lemma_fallback_never_preempts(
    wallpapers: Seq<Wallpaper>,
    index: int,
    at: int,
    fallback: Wallpaper,
    light: Light,
    elevation: int,
    azimuth: int,
)
    requires
        is_first_met(wallpapers, index, light, elevation, azimuth),
        0 <= at <= wallpapers.len(),
        fallback.during@ is Any,
    ensures
        is_selected(
            wallpapers.insert(at, fallback),
            if at <= index {
                index + 1
            } else {
                index
            },
            light,
            elevation,
            azimuth,
        ),
{
    let longer = wallpapers.insert(at, fallback);
    let moved = if at <= index {
        index + 1
    } else {
        index
    };
    assert(longer[moved] == wallpapers[index]);
    assert forall|j: int| 0 <= j < moved implies !(#[trigger] longer[j]).during@.met(
        light,
        elevation,
        azimuth,
    ) by {
        if j < at {
            assert(longer[j] == wallpapers[j]);
        } else if j == at {
            assert(longer[j] == fallback);
        } else {
            assert(longer[j] == wallpapers[j - 1]);
        }
    }
    assert(is_first_met(longer, moved, light, elevation, azimuth));
}

/// The place of the wallpaper to show for this light, altitude and
/// azimuth, if there is one.
pub fn select_index(wallpapers: &Vec<Wallpaper>, light: Light, elevation: i64, azimuth: i64) -> (chosen:
    Option<usize>)
    ensures
        match chosen {
            Some(index) => is_selected(
                wallpapers@,
                index as int,
                light,
                elevation as int,
                azimuth as int,
            ),
            None => nothing_selected(wallpapers@, light, elevation as int, azimuth as int),
        },
{
    let mut i: usize = 0;
    while i < wallpapers.len()
        invariant
            i <= wallpapers.len(),
            forall|j: int|
                0 <= j < i ==> !(#[trigger] wallpapers@[j]).during@.met(
                    light,
                    elevation as int,
                    azimuth as int,
                ),
        decreases wallpapers.len() - i,
    {
        if wallpapers[i].during.is_met(light, elevation, azimuth) {
            return Some(i);
        }
        i += 1;
    }
    let mut k: usize = 0;
    while k < wallpapers.len()
        invariant
            k <= wallpapers.len(),
            none_met(wallpapers@, light, elevation as int, azimuth as int),
            forall|j: int| 0 <= j < k ==> !((#[trigger] wallpapers@[j]).during@ is Any),
        decreases wallpapers.len() - k,
    {
        if wallpapers[k].during.is_any() {
            return Some(k);
        }
        k += 1;
    }
    None
}

/// The wallpaper to show for this light, altitude and azimuth: the first
/// whose condition is met; where none is, the first fallback; where there
/// is none either, nothing.
pub fn select<'a>(
    wallpapers: &'a Vec<Wallpaper>,
    light: Light,
    elevation: i64,
    azimuth: i64,
) -> (chosen: Option<&'a Wallpaper>)
    ensures
        match chosen {
            Some(wallpaper) => exists|index: int|
                #![trigger wallpapers@[index]]
                is_selected(wallpapers@, index, light, elevation as int, azimuth as int)
                    && *wallpaper == wallpapers@[index],
            None => nothing_selected(wallpapers@, light, elevation as int, azimuth as int),
        },
{
    match select_index(wallpapers, light, elevation, azimuth) {
        Some(index) => Some(&wallpapers[index]),
        None => None,
    }
}

impl Config {
    /// The wallpaper to show while the sun stands at `position`: the light
    /// is taken from the position, then the wallpapers are gone through
    /// with that light, the sun's altitude and its azimuth.
    pub fn wallpaper_at<'a>(&'a self, position: SolarPosition) -> (chosen: Result<
        &'a Wallpaper,
        Error,
    >)
        ensures
            match chosen {
                Ok(wallpaper) => exists|index: int|
                    #![trigger self.wallpapers@[index]]
                    is_selected(
                        self.wallpapers@,
                        index,
                        light_of_position(position),
                        position.spec_elevation(),
                        position.spec_azimuth(),
                    ) && *wallpaper == self.wallpapers@[index],
                Err(error) => error == Error::NoMatch && nothing_selected(
                    self.wallpapers@,
                    light_of_position(position),
                    position.spec_elevation(),
                    position.spec_azimuth(),
                ),
            },
    {
        let elevation = position.elevation();
        let azimuth = position.azimuth();
        let light = Light::from(position);
        match select(&self.wallpapers, light, elevation, azimuth) {
            Some(wallpaper) => Ok(wallpaper),
            None => Err(Error::NoMatch),
        }
    }
}

} // verus!
