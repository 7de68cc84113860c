//! When a wallpaper applies: the condition attached to it, how a condition
//! is folded out of a list of light names and angles, and how it is tested
//! against the sun's position.

use vstd::prelude::*;

use crate::angle::{any_contains, any_holds, is_morning, reduce, reduced, AngleRange};
use crate::angle::{FULL_TURN, HALF_TURN};
use crate::error::Error;
use crate::light::{light_named, Light};
use crate::text::same_text;

verus! {

/// One element of a condition written as a list.
#[derive(Clone, Copy, Debug, PartialEq, Eq, Structural)]
pub enum Token {
    /// An angle, as it was written: with its sign and any number of turns.
    Number(i64),
    /// A light state, given by its name.
    Light(Light),
}

/// One element of a condition as it is written: an angle or a text.
#[derive(Clone, Debug)]
pub enum Item {
    Number(i64),
    Text(String),
}

impl Item {
    /// The token that the element stands for: an angle for itself, a text
    /// for the light state that it names. A text that names none stands for
    /// nothing.
    pub open spec fn token(self) -> Option<Token> {
        match self {
            Item::Number(raw) => Some(Token::Number(raw)),
            Item::Text(text) => match light_named(text@) {
                Some(light) => Some(Token::Light(light)),
                None => None,
            },
        }
    }

    /// Reads the element.
    pub fn to_token(&self) -> (read: Result<Token, Error>)
        ensures
            match read {
                Ok(token) => self.token() == Some(token),
                Err(error) => error == Error::UnknownLight && self.token() is None,
            },
    {
        match self {
            Item::Number(raw) => Ok(Token::Number(*raw)),
            Item::Text(text) => match Light::from_name(text.as_str()) {
                Some(light) => Ok(Token::Light(light)),
                None => Err(Error::UnknownLight),
            },
        }
    }
}

/// Whether every text among the elements names a light state.
pub open spec fn all_named(items: Seq<Item>) -> bool {
    forall|i: int| 0 <= i < items.len() ==> (#[trigger] items[i]).token() is Some
}

/// The tokens that the elements stand for, one for one.
pub open spec fn tokens_of(items: Seq<Item>) -> Seq<Token> {
    Seq::new(items.len(), |i: int| items[i].token().unwrap())
}

/// The condition that a single text stands for: the fallback for the word
/// `any`, else the one light state that the text names.
pub open spec fn condition_of_text(text: Seq<char>) -> Option<Condition> {
    if text == "any"@ {
        Some(Condition::Any)
    } else {
        match light_named(text) {
            Some(light) => Some(Condition::Lights(seq![light])),
            None => None,
        }
    }
}

/// The condition under which a wallpaper applies.
#[derive(Clone, Debug)]
pub enum During {
    /// While the light is one of these.
    Lights(Vec<Light>),
    /// While the sun's altitude is in one of the `rising` ranges in the
    /// morning, or in one of the `setting` ranges in the evening.
    Elevation { rising: Vec<AngleRange>, setting: Vec<AngleRange> },
    /// While either of the two holds.
    LightsAndElevation { lights: Vec<Light>, rising: Vec<AngleRange>, setting: Vec<AngleRange> },
    /// Whenever nothing else applies.
    Any,
}

/// What a `During` holds, as sequences.
pub enum Condition {
    Lights(Seq<Light>),
    Elevation { rising: Seq<AngleRange>, setting: Seq<AngleRange> },
    LightsAndElevation { lights: Seq<Light>, rising: Seq<AngleRange>, setting: Seq<AngleRange> },
    Any,
}

impl View for During {
    type V = Condition;

    open spec fn view(&self) -> Condition {
        match self {
            During::Lights(lights) => Condition::Lights(lights@),
            During::Elevation { rising, setting } => Condition::Elevation {
                rising: rising@,
                setting: setting@,
            },
            During::LightsAndElevation { lights, rising, setting } => Condition::LightsAndElevation {
                lights: lights@,
                rising: rising@,
                setting: setting@,
            },
            During::Any => Condition::Any,
        }
    }
}

/// Whether the altitude is in a range of the half of the day that the
/// azimuth points to.
pub open spec fn in_ranges_of_half(
    rising: Seq<AngleRange>,
    setting: Seq<AngleRange>,
    elevation: int,
    azimuth: int,
) -> bool {
    if is_morning(azimuth) {
        any_holds(rising, elevation)
    } else {
        any_holds(setting, elevation)
    }
}

impl Condition {
    /// Whether the condition itself is met at this moment. The fallback
    /// `Any` is never met: it is chosen only when nothing is.
    pub open spec fn met(self, light: Light, elevation: int, azimuth: int) -> bool {
        match self {
            Condition::Lights(lights) => lights.contains(light),
            Condition::Elevation { rising, setting } => in_ranges_of_half(
                rising,
                setting,
                elevation,
                azimuth,
            ),
            Condition::LightsAndElevation { lights, rising, setting } => lights.contains(light)
                || in_ranges_of_half(rising, setting, elevation, azimuth),
            Condition::Any => false,
        }
    }
}

/// An angle as written, brought into the signed domain of its half of the
/// day: whole turns are taken off towards zero, then an angle written as
/// positive is moved into `(-180, 180]` degrees and one written as negative
/// into `[-180, 180)`.
pub open spec fn recentered(raw: int) -> int {
    let rem = reduced(raw);
    if raw >= 0 && rem > HALF_TURN {
        rem - FULL_TURN
    } else if raw < 0 && rem < -HALF_TURN {
        rem + FULL_TURN
    } else {
        rem
    }
}

/// Whether a pair of written angles speaks of the morning: it does when its
/// first angle is not negative.
pub open spec fn speaks_of_rising(first: int) -> bool {
    first >= 0
}

/// Whether two written angles agree in sign, zero counting as positive.
/// A pair that does not agree gives no range.
pub open spec fn same_sign(first: int, second: int) -> bool {
    (first >= 0) == (second >= 0)
}

/// The ranges that a pair of written angles of one sign stands for.
///
/// Where the first angle, recentred, is not above the second, the pair is
/// the range between them. Otherwise it is cut at zero into the part from
/// zero to the first and the part from the second to zero; a part that would
/// start and end at zero is left out. (A recentred angle is never a full
/// turn, so the part that ends at the first angle is always there.)
pub open spec fn pair_ranges(first: int, second: int) -> Seq<AngleRange> {
    let a = recentered(first) as i64;
    let b = recentered(second) as i64;
    if a > b {
        if b != 0 {
            seq![AngleRange { start: 0, end: a }, AngleRange { start: b, end: 0 }]
        } else {
            seq![AngleRange { start: 0, end: a }]
        }
    } else {
        seq![AngleRange { start: a, end: b }]
    }
}

/// The light states among the tokens, in their order.
pub open spec fn lights_of(tokens: Seq<Token>) -> Seq<Light>
    decreases tokens.len(),
{
    if tokens.len() == 0 {
        Seq::empty()
    } else {
        match tokens.last() {
            Token::Light(light) => lights_of(tokens.drop_last()).push(light),
            Token::Number(_) => lights_of(tokens.drop_last()),
        }
    }
}

/// The angles among the tokens, in their order.
pub open spec fn numbers_of(tokens: Seq<Token>) -> Seq<int>
    decreases tokens.len(),
{
    if tokens.len() == 0 {
        Seq::empty()
    } else {
        match tokens.last() {
            Token::Number(raw) => numbers_of(tokens.drop_last()).push(raw as int),
            Token::Light(_) => numbers_of(tokens.drop_last()),
        }
    }
}

/// The ranges of one half of the day that a list of written angles stands
/// for. The angles are taken two by two from the front; each pair of one
/// sign adds its ranges to the half it speaks of; an angle left over at the
/// end adds nothing.
pub open spec fn ranges_of(numbers: Seq<int>, rising: bool) -> Seq<AngleRange>
    decreases numbers.len(),
{
    let len = numbers.len() as int;
    if len < 2 {
        Seq::empty()
    } else if len % 2 == 1 {
        ranges_of(numbers.drop_last(), rising)
    } else {
        let first = numbers[len - 2];
        let second = numbers[len - 1];
        let earlier = ranges_of(numbers.subrange(0, len - 2), rising);
        if same_sign(first, second) && speaks_of_rising(first) == rising {
            earlier + pair_ranges(first, second)
        } else {
            earlier
        }
    }
}

/// The angle that is left without a partner, if the count is odd.
pub open spec fn unpaired(numbers: Seq<int>) -> Option<int> {
    if numbers.len() % 2 == 1 {
        Some(numbers.last())
    } else {
        None
    }
}

/// What has been gathered from the tokens read so far.
pub struct Gathered {
    pub lights: Seq<Light>,
    pub rising: Seq<AngleRange>,
    pub setting: Seq<AngleRange>,
    pub pending: Option<int>,
}

impl Gathered {
    /// Nothing read yet.
    pub open spec fn start() -> Gathered {
        Gathered {
            lights: Seq::empty(),
            rising: Seq::empty(),
            setting: Seq::empty(),
            pending: None,
        }
    }

    /// What is gathered after one more token.
    pub open spec fn step(self, token: Token) -> Gathered {
        match token {
            Token::Light(light) => Gathered { lights: self.lights.push(light), ..self },
            Token::Number(raw) => match self.pending {
                None => Gathered { pending: Some(raw as int), ..self },
                Some(first) => if !same_sign(first, raw as int) {
                    Gathered { pending: None, ..self }
                } else if speaks_of_rising(first) {
                    Gathered {
                        rising: self.rising + pair_ranges(first, raw as int),
                        pending: None,
                        ..self
                    }
                } else {
                    Gathered {
                        setting: self.setting + pair_ranges(first, raw as int),
                        pending: None,
                        ..self
                    }
                },
            },
        }
    }

    /// What is gathered from a whole list of tokens.
    pub open spec fn of(tokens: Seq<Token>) -> Gathered {
        let numbers = numbers_of(tokens);
        Gathered {
            lights: lights_of(tokens),
            rising: ranges_of(numbers, true),
            setting: ranges_of(numbers, false),
            pending: unpaired(numbers),
        }
    }

    /// The condition that the gathered lights and ranges make: both kinds
    /// together where both are there, else the kind that is there, else an
    /// empty set of lights, which nothing meets.
    pub open spec fn condition(self) -> Condition {
        let has_lights = self.lights.len() > 0;
        let has_ranges = self.rising.len() > 0 || self.setting.len() > 0;
        if has_lights && has_ranges {
            Condition::LightsAndElevation {
                lights: self.lights,
                rising: self.rising,
                setting: self.setting,
            }
        } else if has_ranges {
            Condition::Elevation { rising: self.rising, setting: self.setting }
        } else {
            Condition::Lights(self.lights)
        }
    }
}

/// The condition that a list of tokens stands for.
pub open spec fn folded(tokens: Seq<Token>) -> Condition {
    Gathered::of(tokens).condition()
}

/// Reading one more token is one step.
pub proof fn lemma_of_push(tokens: Seq<Token>, token: Token)
    ensures
        Gathered::of(tokens.push(token)) == Gathered::of(tokens).step(token),
{
    let longer = tokens.push(token);
    assert(longer.drop_last() =~= tokens);
    assert(longer.last() == token);
    let numbers = numbers_of(tokens);
    match token {
        Token::Light(light) => {
            assert(lights_of(longer) == lights_of(tokens).push(light));
            assert(numbers_of(longer) == numbers);
        },
        Token::Number(raw) => {
            assert(lights_of(longer) == lights_of(tokens));
            let more = numbers.push(raw as int);
            assert(numbers_of(longer) == more);
            assert(more.drop_last() =~= numbers);
            if numbers.len() % 2 == 1 {
                let before = numbers.drop_last();
                assert(more.subrange(0, more.len() - 2) =~= before);
                assert(more[more.len() - 2] == numbers.last());
                assert(ranges_of(numbers, true) == ranges_of(before, true));
                assert(ranges_of(numbers, false) == ranges_of(before, false));
            }
        },
    }
}

/// Nothing is gathered from no tokens.
pub proof fn lemma_of_empty()
    ensures
        Gathered::of(Seq::empty()) == Gathered::start(),
{
}

/// The angles of two lists read one after the other are the angles of the
/// first followed by those of the second, and so are the lights.
pub proof fn lemma_tokens_concat(head: Seq<Token>, tail: Seq<Token>)
    ensures
        numbers_of(head + tail) == numbers_of(head) + numbers_of(tail),
        lights_of(head + tail) == lights_of(head) + lights_of(tail),
    decreases tail.len(),
{
    if tail.len() == 0 {
        assert(head + tail =~= head);
        assert(numbers_of(head) + numbers_of(tail) =~= numbers_of(head));
        assert(lights_of(head) + lights_of(tail) =~= lights_of(head));
    } else {
        let whole = head + tail;
        assert(whole.drop_last() =~= head + tail.drop_last());
        assert(whole.last() == tail.last());
        lemma_tokens_concat(head, tail.drop_last());
        match tail.last() {
            Token::Number(raw) => {
                assert(numbers_of(whole) =~= numbers_of(head) + numbers_of(tail));
            },
            Token::Light(light) => {
                assert(lights_of(whole) =~= lights_of(head) + lights_of(tail));
            },
        }
    }
}

/// A light name between the angles does not disturb their pairing: with the
/// name put in at any place, the same ranges come out and the same angle is
/// left waiting.
pub proof fn lemma_light_keeps_pairing(tokens: Seq<Token>, at: int, light: Light)
    requires
        0 <= at <= tokens.len(),
    ensures
        Gathered::of(tokens.insert(at, Token::Light(light))).rising == Gathered::of(tokens).rising,
        Gathered::of(tokens.insert(at, Token::Light(light))).setting == Gathered::of(
            tokens,
        ).setting,
        Gathered::of(tokens.insert(at, Token::Light(light))).pending == Gathered::of(
            tokens,
        ).pending,
{
    let head = tokens.subrange(0, at);
    let tail = tokens.subrange(at, tokens.len() as int);
    let name = seq![Token::Light(light)];
    assert(tokens =~= head + tail);
    assert(tokens.insert(at, Token::Light(light)) =~= (head + name) + tail);
    lemma_tokens_concat(head, tail);
    lemma_tokens_concat(head, name);
    lemma_tokens_concat(head + name, tail);
    assert(name.drop_last() =~= Seq::<Token>::empty());
    assert(numbers_of(name.drop_last()) =~= Seq::<int>::empty());
    assert(numbers_of(name) =~= Seq::<int>::empty());
    assert(numbers_of(head) + numbers_of(name) =~= numbers_of(head));
}

/// A pair whose recentred angles lie on both sides of zero, the first
/// above, leaves no gap at zero: its ranges hold exactly the angles from
/// the second to the first.
pub proof fn lemma_seam_has_no_gap(first: int, second: int, angle: int)
    requires
        recentered(second) <= 0 <= recentered(first),
        recentered(second) < recentered(first),
    ensures
        any_holds(pair_ranges(first, second), angle) <==> recentered(second) <= angle
            < recentered(first),
{
    let ranges = pair_ranges(first, second);
    let a = recentered(first);
    let b = recentered(second);
    if b <= angle < a {
        if angle >= 0 {
            assert(ranges[0].holds(angle));
        } else {
            assert(ranges[1].holds(angle));
        }
    }
}

/// A pair whose recentred angles are in order stands for the one range
/// between them.
pub proof fn lemma_ordered_pair_is_one_range(first: int, second: int, angle: int)
    requires
        recentered(first) <= recentered(second),
    ensures
        any_holds(pair_ranges(first, second), angle) <==> recentered(first) <= angle
            < recentered(second),
{
    let ranges = pair_ranges(first, second);
    if recentered(first) <= angle < recentered(second) {
        assert(ranges[0].holds(angle));
    }
}

/// Brings a written angle into the signed domain of its half of the day.
pub fn recenter(raw: i64) -> (angle: i64)
    ensures
        angle == recentered(raw as int),
        -HALF_TURN <= angle <= HALF_TURN,
{
    let rem: i64 = reduce(raw);
    if raw >= 0 && rem > HALF_TURN {
        rem - FULL_TURN
    } else if raw < 0 && rem < -HALF_TURN {
        rem + FULL_TURN
    } else {
        rem
    }
}

/// Adds the ranges of a pair of written angles of one sign to a list.
pub fn push_pair_ranges(ranges: &mut Vec<AngleRange>, first: i64, second: i64)
    ensures
        final(ranges)@ == old(ranges)@ + pair_ranges(first as int, second as int),
{
    let a: i64 = recenter(first);
    let b: i64 = recenter(second);
    if a > b {
        ranges.push(AngleRange::new(0, a));
        if b != 0 {
            ranges.push(AngleRange::new(b, 0));
        }
    } else {
        ranges.push(AngleRange::new(a, b));
    }
    assert(ranges@ =~= old(ranges)@ + pair_ranges(first as int, second as int));
}

/// The state of a fold over tokens that arrive one by one.
#[derive(Clone, Debug)]
pub struct Folder {
    pub lights: Vec<Light>,
    pub rising: Vec<AngleRange>,
    pub setting: Vec<AngleRange>,
    /// An angle that waits for its partner.
    pub pending: Option<i64>,
}

impl View for Folder {
    type V = Gathered;

    open spec fn view(&self) -> Gathered {
        Gathered {
            lights: self.lights@,
            rising: self.rising@,
            setting: self.setting@,
            pending: match self.pending {
                Some(raw) => Some(raw as int),
                None => None,
            },
        }
    }
}

impl Folder {
    /// A fold that has read nothing yet.
    pub fn new() -> (folder: Folder)
        ensures
            folder@ == Gathered::start(),
    {
        Folder { lights: Vec::new(), rising: Vec::new(), setting: Vec::new(), pending: None }
    }

    /// Takes in one token.
    pub fn push(&mut self, token: Token)
        ensures
            final(self)@ == old(self)@.step(token),
    {
        match token {
            Token::Light(light) => {
                self.lights.push(light);
            },
            Token::Number(raw) => {
                match self.pending {
                    None => {
                        self.pending = Some(raw);
                    },
                    Some(first) => {
                        self.pending = None;
                        if (first >= 0) == (raw >= 0) {
                            if first >= 0 {
                                push_pair_ranges(&mut self.rising, first, raw);
                            } else {
                                push_pair_ranges(&mut self.setting, first, raw);
                            }
                        }
                    },
                }
            },
        }
    }

    /// Ends the fold and gives the condition that was gathered. An angle
    /// that still waits for its partner is dropped.
    pub fn finish(self) -> (during: During)
        ensures
            during@ == self@.condition(),
    {
        let has_lights = self.lights.len() > 0;
        let has_ranges = self.rising.len() > 0 || self.setting.len() > 0;
        if has_lights && has_ranges {
            During::LightsAndElevation {
                lights: self.lights,
                rising: self.rising,
                setting: self.setting,
            }
        } else if has_ranges {
            During::Elevation { rising: self.rising, setting: self.setting }
        } else {
            During::Lights(self.lights)
        }
    }
}

/// Whether a light is among those listed.
pub fn lights_contain(lights: &Vec<Light>, light: Light) -> (found: bool)
    ensures
        found == lights@.contains(light),
{
    let mut i: usize = 0;
    while i < lights.len()
        invariant
            i <= lights.len(),
            forall|j: int| 0 <= j < i ==> lights@[j] != light,
        decreases lights.len() - i,
    {
        if lights[i] == light {
            return true;
        }
        i += 1;
    }
    false
}

/// Tests the altitude against the ranges of the half of the day that the
/// azimuth points to.
pub fn in_half(
    rising: &Vec<AngleRange>,
    setting: &Vec<AngleRange>,
    elevation: i64,
    azimuth: i64,
) -> (found: bool)
    ensures
        found == in_ranges_of_half(rising@, setting@, elevation as int, azimuth as int),
{
    if azimuth < HALF_TURN {
        any_contains(rising, elevation)
    } else {
        any_contains(setting, elevation)
    }
}

impl During {
    /// Folds a list of tokens into a condition.
    pub fn from_tokens(tokens: &Vec<Token>) -> (during: During)
        ensures
            during@ == folded(tokens@),
    {
        let mut folder = Folder::new();
        let mut i: usize = 0;
        proof {
            lemma_of_empty();
            assert(tokens@.take(0) =~= Seq::<Token>::empty());
        }
        while i < tokens.len()
            invariant
                i <= tokens.len(),
                folder@ == Gathered::of(tokens@.take(i as int)),
            decreases tokens.len() - i,
        {
            proof {
                lemma_of_push(tokens@.take(i as int), tokens@[i as int]);
                assert(tokens@.take(i as int).push(tokens@[i as int]) =~= tokens@.take(i + 1));
            }
            folder.push(tokens[i]);
            i += 1;
        }
        assert(tokens@.take(i as int) =~= tokens@);
        folder.finish()
    }

    /// Reads a condition written as a list of angles and light names.
    /// The list is refused if a text in it names no light state.
    pub fn from_items(items: &Vec<Item>) -> (read: Result<During, Error>)
        ensures
            match read {
                Ok(during) => all_named(items@) && during@ == folded(tokens_of(items@)),
                Err(error) => error == Error::UnknownLight && !all_named(items@),
            },
    {
        let mut tokens: Vec<Token> = Vec::new();
        let mut i: usize = 0;
        while i < items.len()
            invariant
                i <= items.len(),
                tokens@.len() == i,
                forall|j: int| 0 <= j < i ==> (#[trigger] items@[j]).token() == Some(tokens@[j]),
            decreases items.len() - i,
        {
            match items[i].to_token() {
                Ok(token) => {
                    tokens.push(token);
                },
                Err(error) => {
                    return Err(error);
                },
            }
            i += 1;
        }
        assert(tokens@ =~= tokens_of(items@));
        Ok(During::from_tokens(&tokens))
    }

    /// Reads a condition written as a single text: the word `any` for the
    /// fallback, else the name of one light state.
    pub fn from_text(text: &str) -> (read: Result<During, Error>)
        ensures
            match read {
                Ok(during) => condition_of_text(text@) == Some(during@),
                Err(error) => error == Error::UnknownLight && condition_of_text(text@) is None,
            },
    {
        if same_text(text, "any") {
            return Ok(During::Any);
        }
        match Light::from_name(text) {
            Some(light) => {
                let mut lights: Vec<Light> = Vec::new();
                lights.push(light);
                assert(lights@ =~= seq![light]);
                Ok(During::Lights(lights))
            },
            None => Err(Error::UnknownLight),
        }
    }

    /// Whether this is the fallback condition.
    pub fn is_any(&self) -> (any: bool)
        ensures
            any == (self@ is Any),
    {
        match self {
            During::Any => true,
            _ => false,
        }
    }

    /// Whether the condition itself is met by this light, altitude and
    /// azimuth. The fallback `Any` never is.
    pub fn is_met(&self, light: Light, elevation: i64, azimuth: i64) -> (met: bool)
        ensures
            met == self@.met(light, elevation as int, azimuth as int),
    {
        match self {
            During::Lights(lights) => lights_contain(lights, light),
            During::Elevation { rising, setting } => in_half(rising, setting, elevation, azimuth),
            During::LightsAndElevation { lights, rising, setting } => {
                lights_contain(lights, light) || in_half(rising, setting, elevation, azimuth)
            },
            During::Any => false,
        }
    }
}

} // verus!
