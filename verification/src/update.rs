//! Whether a newer release is out: version numbers and their order.
//!
//! A version is a text of numbers separated by dots, such as `1.2.3`.
//! Parts that are not numbers are passed over, and a version that has
//! fewer numbers than another counts as having zeros for the rest.

use vstd::prelude::*;
use vstd::string::StringExecFns;

verus! {

/// The repository whose releases are looked at.
pub const GITHUB_REPO: &'static str = "coulsontl/ai-toolbox";

/// What a look at the latest release found.
#[derive(Debug, Clone)]
pub struct UpdateCheckResult {
    /// Whether the latest release is newer than what is running.
    pub has_update: bool,
    /// The version that is running.
    pub current_version: String,
    /// The version of the latest release, without a leading `v`.
    pub latest_version: String,
    /// The page of the latest release.
    pub release_url: String,
    /// The notes of the latest release, empty where it has none.
    pub release_notes: String,
}

/// The text without the characters `c` that it begins with.
pub open spec fn trim_start(text: Seq<char>, c: char) -> Seq<char>
    decreases text.len(),
{
    if text.len() > 0 && text[0] == c {
        trim_start(text.skip(1), c)
    } else {
        text
    }
}

/// The parts of a text between the separators, in order. A text with
/// `n` separators has `n + 1` parts, some of which may be empty.
pub open spec fn split_on(text: Seq<char>, separator: char) -> Seq<Seq<char>>
    decreases text.len(),
{
    if text.len() == 0 {
        seq![Seq::empty()]
    } else {
        let parts = split_on(text.drop_last(), separator);
        if text.last() == separator {
            parts.push(Seq::empty())
        } else {
            parts.drop_last().push(parts.last().push(text.last()))
        }
    }
}

/// Whether a character is a decimal digit.
pub open spec fn is_digit(c: char) -> bool {
    '0' <= c && c <= '9'
}

/// The number that a run of decimal digits writes.
pub open spec fn digits_value(digits: Seq<char>) -> int
    decreases digits.len(),
{
    if digits.len() == 0 {
        0
    } else {
        digits_value(digits.drop_last()) * 10 + (digits.last() as u32 - '0' as u32)
    }
}

/// The digits of a number text: the text without its sign.
pub open spec fn unsigned_part(text: Seq<char>) -> Seq<char> {
    if text.len() > 0 && (text[0] == '-' || text[0] == '+') {
        text.skip(1)
    } else {
        text
    }
}

/// The number that a text writes, with its sign.
pub open spec fn signed_value(text: Seq<char>) -> int {
    if text.len() > 0 && text[0] == '-' {
        -digits_value(unsigned_part(text))
    } else {
        digits_value(unsigned_part(text))
    }
}

/// The 32-bit number that a text writes: an optional sign, then one
/// decimal digit or more and nothing else, the whole within the range of
/// `i32`. Any other text writes no number.
pub open spec fn parse_i32(text: Seq<char>) -> Option<i32> {
    let digits = unsigned_part(text);
    if digits.len() > 0 && (forall|i: int| 0 <= i < digits.len() ==> is_digit(#[trigger] digits[i]))
        && i32::MIN <= signed_value(text) <= i32::MAX {
        Some(signed_value(text) as i32)
    } else {
        None
    }
}

/// The numbers among a list of parts, in order.
pub open spec fn numbers_in(parts: Seq<Seq<char>>) -> Seq<i32>
    decreases parts.len(),
{
    if parts.len() == 0 {
        Seq::empty()
    } else {
        let before = numbers_in(parts.drop_last());
        match parse_i32(parts.last()) {
            Some(number) => before.push(number),
            None => before,
        }
    }
}

/// The numbers of a version: those among its parts between the dots.
pub open spec fn version_numbers(version: Seq<char>) -> Seq<i32> {
    numbers_in(split_on(version, '.'))
}

/// The number of a version at one place, and zero past its end.
pub open spec fn component(numbers: Seq<i32>, place: int) -> int {
    if 0 <= place < numbers.len() {
        numbers[place] as int
    } else {
        0
    }
}

/// The order of two versions from one place on: `1` where the first is
/// greater at the first place where they differ, `-1` where it is less,
/// and `0` where they differ nowhere.
pub open spec fn order_from(first: Seq<i32>, second: Seq<i32>, place: int) -> int
    decreases first.len() + second.len() - place,
{
    if place < 0 || (place >= first.len() && place >= second.len()) {
        0
    } else if component(first, place) > component(second, place) {
        1
    } else if component(first, place) < component(second, place) {
        -1
    } else {
        order_from(first, second, place + 1)
    }
}

/// The order of two versions: `1` where the first is newer, `-1` where
/// it is older, `0` where they are the same.
pub open spec fn version_order(v1: Seq<char>, v2: Seq<char>) -> int {
    order_from(version_numbers(v1), version_numbers(v2), 0)
}

/// A text always has at least one part.
pub proof fn lemma_split_has_a_part(text: Seq<char>, separator: char)
    ensures
        split_on(text, separator).len() >= 1,
    decreases text.len(),
{
    if text.len() > 0 {
        lemma_split_has_a_part(text.drop_last(), separator);
    }
}

/// Turning two versions round turns their order round.
pub proof fn lemma_order_is_antisymmetric(first: Seq<i32>, second: Seq<i32>, place: int)
    ensures
        order_from(second, first, place) == -order_from(first, second, place),
    decreases first.len() + second.len() - place,
{
    if place < 0 || (place >= first.len() && place >= second.len()) {
    } else if component(first, place) == component(second, place) {
        lemma_order_is_antisymmetric(first, second, place + 1);
    }
}

/// A version is neither newer nor older than itself.
pub proof fn lemma_order_is_reflexive(numbers: Seq<i32>, place: int)
    ensures
        order_from(numbers, numbers, place) == 0,
    decreases numbers.len() + numbers.len() - place,
{
    if place < 0 || place >= numbers.len() {
    } else {
        lemma_order_is_reflexive(numbers, place + 1);
    }
}

/// The characters of a text.
fn chars_of(text: &str) -> (r: Vec<char>)
    ensures
        r@ == text@,
{
    let n = text.unicode_len();
    let mut chars: Vec<char> = Vec::new();
    let mut i: usize = 0;
    while i < n
        invariant
            i <= n,
            n == text@.len(),
            chars@ == text@.take(i as int),
        decreases n - i,
    {
        chars.push(text.get_char(i));
        proof {
            assert(text@.take(i + 1) =~= text@.take(i as int).push(text@[i as int]));
        }
        i = i + 1;
    }
    proof {
        assert(text@.take(n as int) =~= text@);
    }
    chars
}

/// The text of a list of characters from one place on.
fn text_from(chars: &Vec<char>, start: usize) -> (r: String)
    requires
        start <= chars.len(),
    ensures
        r@ == chars@.skip(start as int),
{
    let mut text = String::new();
    let mut i: usize = start;
    proof {
        assert(chars@.subrange(start as int, start as int) =~= Seq::empty());
    }
    while i < chars.len()
        invariant
            start <= i <= chars.len(),
            text@ == chars@.subrange(start as int, i as int),
        decreases chars.len() - i,
    {
        push_char(&mut text, chars[i]);
        proof {
            assert(chars@.subrange(start as int, i + 1) =~= chars@.subrange(
                start as int,
                i as int,
            ).push(chars@[i as int]));
        }
        i = i + 1;
    }
    proof {
        assert(chars@.subrange(start as int, chars.len() as int) =~= chars@.skip(start as int));
    }
    text
}

/// `String::push`: the text with one character more at its end.
#[verifier::external_body]
fn push_char(text: &mut String, c: char)
    ensures
        final(text)@ == old(text)@.push(c),
{
    text.push(c)
}

/// The text without the characters `c` that it begins with.
pub fn trim_start_matches(text: &str, c: char) -> (r: String)
    ensures
        r@ == trim_start(text@, c),
{
    let chars = chars_of(text);
    let mut start: usize = 0;
    proof {
        assert(chars@.skip(0) =~= chars@);
    }
    while start < chars.len() && chars[start] == c
        invariant
            start <= chars.len(),
            trim_start(chars@, c) == trim_start(chars@.skip(start as int), c),
        decreases chars.len() - start,
    {
        proof {
            assert(chars@.skip(start as int)[0] == chars@[start as int]);
            assert(chars@.skip(start as int).skip(1) =~= chars@.skip(start + 1));
        }
        start = start + 1;
    }
    proof {
        if start < chars.len() {
            assert(chars@.skip(start as int)[0] == chars@[start as int]);
        }
    }
    text_from(&chars, start)
}

/// Reads the 32-bit number that a text writes.
pub fn parse_number(text: &Vec<char>) -> (r: Option<i32>)
    ensures
        r == parse_i32(text@),
{
    let n = text.len();
    let negative = n > 0 && text[0] == '-';
    let start: usize = if n > 0 && (text[0] == '-' || text[0] == '+') {
        1
    } else {
        0
    };
    let ghost digits = unsigned_part(text@);
    proof {
        assert(digits =~= text@.skip(start as int));
        assert(digits.take(0) =~= Seq::empty());
    }
    if start == n {
        return None;
    }
    // The limit is the size of the least `i32`; a run of digits that
    // writes more fits with neither sign.
    let limit: i64 = 2_147_483_648;
    let mut value: i64 = 0;
    let mut too_large = false;
    let mut i: usize = start;
    while i < n
        invariant
            start <= i <= n,
            n == text@.len(),
            digits == text@.skip(start as int),
            digits == unsigned_part(text@),
            negative == (text@.len() > 0 && text@[0] == '-'),
            limit == 2_147_483_648,
            forall|k: int| 0 <= k < i - start ==> is_digit(#[trigger] digits[k]),
            0 <= value <= limit,
            !too_large ==> value == digits_value(digits.take(i - start)),
            too_large ==> digits_value(digits.take(i - start)) > limit,
        decreases n - i,
    {
        let c = text[i];
        proof {
            assert(digits[i - start] == c);
        }
        if !(c >= '0' && c <= '9') {
            proof {
                assert(!is_digit(digits[i - start]));
            }
            return None;
        }
        let digit: i64 = (c as u32 - '0' as u32) as i64;
        proof {
            assert(digits.take(i - start + 1).drop_last() =~= digits.take(i - start));
            assert(digits.take(i - start + 1).last() == c);
        }
        if !too_large {
            value = value * 10 + digit;
            if value > limit {
                too_large = true;
                value = limit;
            }
        }
        i = i + 1;
    }
    proof {
        assert(digits.take(n - start) =~= digits);
    }
    if too_large {
        None
    } else if negative {
        Some((-value) as i32)
    } else if value == limit {
        None
    } else {
        Some(value as i32)
    }
}

/// Reads the numbers of a version.
pub fn read_version_numbers(version: &str) -> (r: Vec<i32>)
    ensures
        r@ == version_numbers(version@),
{
    let chars = chars_of(version);
    let mut numbers: Vec<i32> = Vec::new();
    let mut current: Vec<char> = Vec::new();
    let mut i: usize = 0;
    proof {
        assert(chars@.take(0) =~= Seq::empty());
        assert(split_on(chars@.take(0), '.').drop_last() =~= Seq::empty());
    }
    while i < chars.len()
        invariant
            i <= chars.len(),
            split_on(chars@.take(i as int), '.').len() >= 1,
            numbers@ == numbers_in(split_on(chars@.take(i as int), '.').drop_last()),
            current@ == split_on(chars@.take(i as int), '.').last(),
        decreases chars.len() - i,
    {
        let c = chars[i];
        let ghost parts = split_on(chars@.take(i as int), '.');
        proof {
            assert(chars@.take(i + 1).drop_last() =~= chars@.take(i as int));
            assert(chars@.take(i + 1).last() == c);
            lemma_split_has_a_part(chars@.take(i + 1), '.');
        }
        if c == '.' {
            proof {
                assert(parts.push(Seq::empty()).drop_last() =~= parts);
            }
            match parse_number(&current) {
                Some(number) => {
                    numbers.push(number);
                },
                None => {},
            }
            current = Vec::new();
        } else {
            current.push(c);
            proof {
                assert(parts.drop_last().push(parts.last().push(c)).drop_last() =~= parts.drop_last());
            }
        }
        i = i + 1;
    }
    proof {
        assert(chars@.take(chars.len() as int) =~= chars@);
        let parts = split_on(chars@, '.');
        assert(parts.len() >= 1);
    }
    match parse_number(&current) {
        Some(number) => {
            numbers.push(number);
        },
        None => {},
    }
    numbers
}

/// Orders two lists of version numbers.
fn order_numbers(first: &Vec<i32>, second: &Vec<i32>) -> (r: i32)
    ensures
        r == order_from(first@, second@, 0),
{
    let mut i: usize = 0;
    while i < first.len() || i < second.len()
        invariant
            order_from(first@, second@, 0) == order_from(first@, second@, i as int),
        decreases first.len() + second.len() - i,
    {
        let a: i32 = if i < first.len() {
            first[i]
        } else {
            0
        };
        let b: i32 = if i < second.len() {
            second[i]
        } else {
            0
        };
        if a > b {
            return 1;
        }
        if a < b {
            return -1;
        }
        i = i + 1;
    }
    0
}

/// Orders two versions: `1` where `v1` is newer than `v2`, `-1` where it
/// is older, `0` where they are the same.
pub fn compare_versions(v1: &str, v2: &str) -> (r: i32)
    ensures
        r == version_order(v1@, v2@),
{
    let first = read_version_numbers(v1);
    let second = read_version_numbers(v2);
    order_numbers(&first, &second)
}

/// The address of the description of the latest release.
pub fn latest_json_url() -> (r: String)
    ensures
        r@ == "https://github.com/"@ + GITHUB_REPO@ + "/releases/latest/download/latest.json"@,
{
    let mut url = String::from_str("https://github.com/");
    url.append(GITHUB_REPO);
    url.append("/releases/latest/download/latest.json");
    url
}

/// The address of the page of one release.
pub fn release_url(version: &str) -> (r: String)
    ensures
        r@ == "https://github.com/"@ + GITHUB_REPO@ + "/releases/tag/v"@ + version@,
{
    let mut url = String::from_str("https://github.com/");
    url.append(GITHUB_REPO);
    url.append("/releases/tag/v");
    url.append(version);
    url
}

/// What a look at the latest release found, from the version that is
/// running and from what the release says of itself: its version, with
/// or without a leading `v`, and its notes.
pub fn check_for_updates(current_version: String, release_version: &str, notes: Option<String>)
    -> (r: UpdateCheckResult)
    ensures
        r.has_update == (version_order(trim_start(release_version@, 'v'), current_version@) > 0),
        r.current_version@ == current_version@,
        r.latest_version@ == trim_start(release_version@, 'v'),
        r.release_url@ == "https://github.com/"@ + GITHUB_REPO@ + "/releases/tag/v"@ + trim_start(
            release_version@,
            'v',
        ),
        r.release_notes@ == match notes {
            Some(text) => text@,
            None => Seq::empty(),
        },
{
    let latest_version = trim_start_matches(release_version, 'v');
    let has_update = compare_versions(latest_version.as_str(), current_version.as_str()) > 0;
    let release_url = release_url(latest_version.as_str());
    UpdateCheckResult {
        has_update,
        current_version,
        latest_version,
        release_url,
        release_notes: match notes {
            Some(text) => text,
            None => String::new(),
        },
    }
}

} // verus!
