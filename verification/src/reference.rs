//! The address of a tweet: `https://twitter.com/`, the author's handle,
//! `/status/`, and the digits of the tweet's id.
//!
//! An address is looked for anywhere in the text given. The first place where
//! one starts is taken; the handle runs as far as it can within one line, and
//! the id takes every digit that follows.

use crate::failure::Failure;
use crate::failure::FailureView;
use crate::text::chars_of;
use crate::text::occurs_at;
use crate::text::stands_at;
use vstd::prelude::*;
use vstd::string::*;

verus! {

/// The author and the id of a tweet, as they stand in its address.
#[derive(Clone, Debug, PartialEq, Eq)]
pub struct TweetReference {
    pub author: String,
    pub tweet_id: String,
}

/// The mathematical value of a [`TweetReference`].
pub struct TweetReferenceView {
    pub author: Seq<char>,
    pub tweet_id: Seq<char>,
}

impl View for TweetReference {
    type V = TweetReferenceView;

    open spec fn view(&self) -> TweetReferenceView {
        TweetReferenceView { author: self.author@, tweet_id: self.tweet_id@ }
    }
}

/// The path of the file that holds the video of a tweet: the author, a
/// slash, the id, and `.mp4`.
pub open spec fn target_path(reference: TweetReferenceView) -> Seq<char> {
    reference.author + "/"@ + reference.tweet_id + ".mp4"@
}

impl TweetReference {
    /// The path under which the video of this tweet is saved, relative to
    /// the working directory.
    pub fn download_target(&self) -> (path: String)
        ensures
            path@ == target_path(self@),
    {
        let mut path = self.author.clone();
        path.append("/");
        path.append(self.tweet_id.as_str());
        path.append(".mp4");
        path
    }
}

/// What every tweet address starts with.
pub open spec fn prefix() -> Seq<char> {
    "https://twitter.com/"@
}

/// What stands between the handle and the id.
pub open spec fn marker() -> Seq<char> {
    "/status/"@
}

/// One of the digits `0` to `9`.
pub open spec fn is_digit(c: char) -> bool {
    '0' <= c <= '9'
}

/// No line ends in `text` from `from` up to `to`.
pub open spec fn single_line(text: Seq<char>, from: int, to: int) -> bool {
    forall|i: int| from <= i < to ==> #[trigger] text[i] != '\n'
}

/// A handle that starts at `from` can end at `split`: it stays within one
/// line, and `/status/` and a digit follow.
pub open spec fn handle_ends_at(text: Seq<char>, from: int, split: int) -> bool {
    &&& from <= split
    &&& single_line(text, from, split)
    &&& occurs_at(text, marker(), split)
    &&& split + marker().len() < text.len()
    &&& is_digit(text[split + marker().len()])
}

/// A tweet address starts at `start`, and its handle ends at `split`.
pub open spec fn address_at(text: Seq<char>, start: int, split: int) -> bool {
    &&& occurs_at(text, prefix(), start)
    &&& handle_ends_at(text, start + prefix().len(), split)
}

/// The text holds a tweet address.
pub open spec fn holds_address(text: Seq<char>) -> bool {
    exists|start: int, split: int| address_at(text, start, split)
}

/// The digits from `from` end at `end`: all of them are digits, and what
/// follows, if anything, is not.
pub open spec fn digits_end_at(text: Seq<char>, from: int, end: int) -> bool {
    &&& from <= end <= text.len()
    &&& forall|i: int| from <= i < end ==> is_digit(#[trigger] text[i])
    &&& end < text.len() ==> !is_digit(text[end])
}

/// Reading `text` gives this author and this id: the address is the first
/// that starts in the text, its handle is the longest possible, and the id
/// holds every digit that follows `/status/`.
pub open spec fn reads_as(text: Seq<char>, author: Seq<char>, tweet_id: Seq<char>) -> bool {
    exists|start: int, split: int, end: int|
        {
            &&& #[trigger] address_at(text, start, split)
            &&& forall|earlier: int, other: int|
                earlier < start ==> !#[trigger] address_at(text, earlier, other)
            &&& forall|later: int| later > split ==> !#[trigger] address_at(text, start, later)
            &&& #[trigger] digits_end_at(text, split + marker().len(), end)
            &&& author == text.subrange(start + prefix().len(), split)
            &&& tweet_id == text.subrange(split + marker().len(), end)
        }
}

/// What reading `text` gives, or `None` where the text holds no address.
pub open spec fn reading(text: Seq<char>) -> Option<TweetReferenceView> {
    if holds_address(text) {
        Some(
            choose|reference: TweetReferenceView|
                reads_as(text, reference.author, reference.tweet_id),
        )
    } else {
        None
    }
}

/// Looks for the last place where a handle that starts at `from` can end.
fn last_handle_end(text: &Vec<char>, from: usize) -> (found: Option<usize>)
    requires
        from <= text.len(),
    ensures
        match found {
            Some(split) => {
                &&& handle_ends_at(text@, from as int, split as int)
                &&& forall|later: int|
                    later > split ==> !#[trigger] handle_ends_at(text@, from as int, later)
            },
            None => forall|split: int| !#[trigger] handle_ends_at(text@, from as int, split),
        },
{
    let marker_chars = chars_of("/status/");
    proof {
        reveal_strlit("/status/");
    }
    let mut found: Option<usize> = None;
    let mut at: usize = from;
    while at < text.len()
        invariant
            from <= at <= text.len(),
            marker_chars@ == marker(),
            marker().len() == 8,
            single_line(text@, from as int, at as int),
            match found {
                Some(split) => {
                    &&& split < at
                    &&& handle_ends_at(text@, from as int, split as int)
                    &&& forall|later: int|
                        split < later < at ==> !#[trigger] handle_ends_at(
                            text@,
                            from as int,
                            later,
                        )
                },
                None => forall|split: int|
                    split < at ==> !#[trigger] handle_ends_at(text@, from as int, split),
            },
        ensures
            match found {
                Some(split) => {
                    &&& handle_ends_at(text@, from as int, split as int)
                    &&& forall|later: int|
                        later > split ==> !#[trigger] handle_ends_at(text@, from as int, later)
                },
                None => forall|split: int| !#[trigger] handle_ends_at(text@, from as int, split),
            },
        decreases text.len() - at,
    {
        if text[at] == '\n' {
            assert forall|later: int| later >= at implies !#[trigger] handle_ends_at(
                text@,
                from as int,
                later,
            ) by {
                if handle_ends_at(text@, from as int, later) {
                    if later == at {
                        reveal_strlit("/status/");
                        assert(text@[at + 0] == marker()[0]);
                    } else {
                        assert(text@[at as int] != '\n');
                    }
                }
            }
            break;
        }
        if stands_at(text, &marker_chars, at) && at + 8 < text.len() && is_digit_char(
            text[at + 8],
        ) {
            found = Some(at);
        }
        at += 1;
    }
    found
}

/// Tells whether a character is one of the digits `0` to `9`.
fn is_digit_char(c: char) -> (digit: bool)
    ensures
        digit == is_digit(c),
{
    '0' <= c && c <= '9'
}

/// The place where the digits that start at `from` end.
fn digits_end(text: &Vec<char>, from: usize) -> (end: usize)
    requires
        from <= text.len(),
    ensures
        digits_end_at(text@, from as int, end as int),
{
    let mut end: usize = from;
    while end < text.len() && is_digit_char(text[end])
        invariant
            from <= end <= text.len(),
            forall|i: int| from <= i < end ==> is_digit(#[trigger] text@[i]),
        decreases text.len() - end,
    {
        end += 1;
    }
    end
}

/// Reads the author and the id from the first tweet address in `url`.
///
/// Fails with `PatternMismatch` exactly where `url` holds no tweet address.
pub fn parse_tweet_url(url: &str) -> (parsed: Result<TweetReference, Failure>)
    ensures
        match parsed {
            Ok(reference) => {
                &&& reads_as(url@, reference.author@, reference.tweet_id@)
                &&& reading(url@) == Some(reference@)
            },
            Err(failure) => {
                &&& failure@ == FailureView::PatternMismatch
                &&& !holds_address(url@)
                &&& reading(url@) is None
            },
        },
{
    let text = chars_of(url);
    let prefix_chars = chars_of("https://twitter.com/");
    proof {
        reveal_strlit("https://twitter.com/");
        reveal_strlit("/status/");
    }
    let mut start: usize = 0;
    while start < text.len()
        invariant
            start <= text.len(),
            text@ == url@,
            prefix_chars@ == prefix(),
            prefix().len() == 20,
            marker().len() == 8,
            forall|earlier: int, other: int|
                earlier < start ==> !#[trigger] address_at(text@, earlier, other),
        decreases text.len() - start,
    {
        if stands_at(&text, &prefix_chars, start) {
            if let Some(split) = last_handle_end(&text, start + 20) {
                let end = digits_end(&text, split + 8);
                let author = url.substring_char(start + 20, split).to_owned();
                let tweet_id = url.substring_char(split + 8, end).to_owned();
                proof {
                    assert(address_at(text@, start as int, split as int));
                    assert(digits_end_at(text@, split + marker().len(), end as int));
                    assert(reads_as(url@, author@, tweet_id@));
                    lemma_reading(url@, author@, tweet_id@);
                }
                return Ok(TweetReference { author, tweet_id });
            }
        }
        start += 1;
    }
    proof {
        assert forall|first: int, split: int| !address_at(text@, first, split) by {
            if address_at(text@, first, split) {
                assert(first < text.len());
            }
        }
    }
    Err(Failure::PatternMismatch)
}

/// The address made of a handle and the digits of an id.
pub open spec fn address_of(handle: Seq<char>, digits: Seq<char>) -> Seq<char> {
    prefix() + handle + marker() + digits
}

/// Every character of `digits` is a digit, and there is at least one.
pub open spec fn is_number(digits: Seq<char>) -> bool {
    &&& digits.len() > 0
    &&& forall|i: int| 0 <= i < digits.len() ==> is_digit(#[trigger] digits[i])
}

/// An address made of a handle within one line and of digits reads back as
/// that handle and those digits, with nothing lost and nothing added.
pub proof fn lemma_address_reads_back(handle: Seq<char>, digits: Seq<char>)
    requires
        single_line(handle, 0, handle.len() as int),
        is_number(digits),
    ensures
        reads_as(address_of(handle, digits), handle, digits),
        reading(address_of(handle, digits)) == Some(
            TweetReferenceView { author: handle, tweet_id: digits },
        ),
{
    lemma_reads_back(handle, digits);
    lemma_reading(address_of(handle, digits), handle, digits);
}

/// The address made of a handle and of digits reads as that handle and those
/// digits.
proof fn lemma_reads_back(handle: Seq<char>, digits: Seq<char>)
    requires
        single_line(handle, 0, handle.len() as int),
        is_number(digits),
    ensures
        reads_as(address_of(handle, digits), handle, digits),
{
    let text = address_of(handle, digits);
    let split = 20 + handle.len() as int;
    let end = text.len() as int;
    lemma_fixed_parts();
    lemma_address_parts(handle, digits);
    assert(occurs_at(text, prefix(), 0)) by {
        assert forall|k: int| 0 <= k < prefix().len() implies text[0 + k]
            == #[trigger] prefix()[k] by {
            assert(text[k] == prefix()[k]);
        }
    }
    assert(occurs_at(text, marker(), split));
    assert(single_line(text, 20, split)) by {
        assert forall|i: int| 20 <= i < split implies #[trigger] text[i] != '\n' by {
            assert(text[20 + (i - 20)] == handle[i - 20]);
        }
    }
    assert(is_digit(text[split + 8])) by {
        assert(text[split + 8 + 0] == digits[0]);
    }
    assert(address_at(text, 0, split));
    assert forall|later: int| later > split implies !#[trigger] address_at(text, 0, later) by {
        if occurs_at(text, marker(), later) {
            assert(text[later + 0] == marker()[0]);
            assert(text[later + 1] == marker()[1]);
            if later < split + 8 {
                assert(text[split + (later - split)] == marker()[later - split]);
                assert(later == split + 7);
                assert(text[split + 8 + 0] == digits[0]);
            } else {
                assert(text[split + 8 + (later - split - 8)] == digits[later - split - 8]);
            }
        }
    }
    assert(digits_end_at(text, split + 8, end)) by {
        assert forall|i: int| split + 8 <= i < end implies is_digit(#[trigger] text[i]) by {
            assert(text[split + 8 + (i - split - 8)] == digits[i - split - 8]);
        }
    }
    assert(text.subrange(20, split) == handle) by {
        assert forall|i: int| 0 <= i < handle.len() implies text.subrange(20, split)[i]
            == handle[i] by {
            assert(text[20 + i] == handle[i]);
        }
    }
    assert(text.subrange(split + 8, end) == digits) by {
        assert forall|i: int| 0 <= i < digits.len() implies text.subrange(split + 8, end)[i]
            == digits[i] by {
            assert(text[split + 8 + i] == digits[i]);
        }
    }
}

/// What the two fixed parts of an address look like.
proof fn lemma_fixed_parts()
    ensures
        prefix().len() == 20,
        marker().len() == 8,
        marker()[0] == '/',
        marker()[1] == 's',
        forall|k: int| 1 <= k < 7 ==> #[trigger] marker()[k] != '/',
{
    reveal_strlit("https://twitter.com/");
    reveal_strlit("/status/");
}

/// Where the four parts of an address stand in it.
proof fn lemma_address_parts(handle: Seq<char>, digits: Seq<char>)
    ensures
        address_of(handle, digits).len() == 28 + handle.len() + digits.len(),
        forall|k: int| 0 <= k < 20 ==> address_of(handle, digits)[k] == #[trigger] prefix()[k],
        forall|i: int|
            0 <= i < handle.len() ==> address_of(handle, digits)[20 + i] == #[trigger] handle[i],
        forall|k: int|
            0 <= k < 8 ==> address_of(handle, digits)[20 + handle.len() + k]
                == #[trigger] marker()[k],
        forall|i: int|
            0 <= i < digits.len() ==> address_of(handle, digits)[28 + handle.len() + i]
                == #[trigger] digits[i],
{
    lemma_fixed_parts();
}

/// A text reads in one way only.
pub proof fn lemma_reading_is_unique(
    text: Seq<char>,
    author: Seq<char>,
    tweet_id: Seq<char>,
    other_author: Seq<char>,
    other_id: Seq<char>,
)
    requires
        reads_as(text, author, tweet_id),
        reads_as(text, other_author, other_id),
    ensures
        author == other_author,
        tweet_id == other_id,
{
    let (start, split, end) = choose|start: int, split: int, end: int|
        {
            &&& #[trigger] address_at(text, start, split)
            &&& forall|earlier: int, other: int|
                earlier < start ==> !#[trigger] address_at(text, earlier, other)
            &&& forall|later: int| later > split ==> !#[trigger] address_at(text, start, later)
            &&& #[trigger] digits_end_at(text, split + marker().len(), end)
            &&& author == text.subrange(start + prefix().len(), split)
            &&& tweet_id == text.subrange(split + marker().len(), end)
        };
    let (start2, split2, end2) = choose|start: int, split: int, end: int|
        {
            &&& #[trigger] address_at(text, start, split)
            &&& forall|earlier: int, other: int|
                earlier < start ==> !#[trigger] address_at(text, earlier, other)
            &&& forall|later: int| later > split ==> !#[trigger] address_at(text, start, later)
            &&& #[trigger] digits_end_at(text, split + marker().len(), end)
            &&& other_author == text.subrange(start + prefix().len(), split)
            &&& other_id == text.subrange(split + marker().len(), end)
        };
    assert(start == start2);
    assert(split == split2);
    if end < end2 {
        assert(is_digit(text[end]));
    }
    if end2 < end {
        assert(is_digit(text[end2]));
    }
}

/// What is read stands in the text: the handle lies within one line, the id
/// is a number, and the address made of the two occurs in the text.
pub proof fn lemma_read_stands_in_text(text: Seq<char>, author: Seq<char>, tweet_id: Seq<char>)
    requires
        reads_as(text, author, tweet_id),
    ensures
        single_line(author, 0, author.len() as int),
        is_number(tweet_id),
        exists|start: int| occurs_at(text, address_of(author, tweet_id), start),
{
    let (start, split, end) = choose|start: int, split: int, end: int|
        {
            &&& #[trigger] address_at(text, start, split)
            &&& forall|earlier: int, other: int|
                earlier < start ==> !#[trigger] address_at(text, earlier, other)
            &&& forall|later: int| later > split ==> !#[trigger] address_at(text, start, later)
            &&& #[trigger] digits_end_at(text, split + marker().len(), end)
            &&& author == text.subrange(start + prefix().len(), split)
            &&& tweet_id == text.subrange(split + marker().len(), end)
        };
    lemma_fixed_parts();
    lemma_address_parts(author, tweet_id);
    let address = address_of(author, tweet_id);
    assert forall|i: int| 0 <= i < author.len() implies #[trigger] author[i] != '\n' by {
        assert(author[i] == text[start + 20 + i]);
    }
    assert forall|i: int| 0 <= i < tweet_id.len() implies is_digit(#[trigger] tweet_id[i]) by {
        assert(tweet_id[i] == text[split + 8 + i]);
    }
    assert forall|k: int| 0 <= k < address.len() implies text[start + k]
        == #[trigger] address[k] by {
        if k < 20 {
            assert(address[k] == prefix()[k]);
        } else if k < 20 + author.len() {
            assert(address[20 + (k - 20)] == author[k - 20]);
        } else if k < 28 + author.len() {
            assert(address[20 + author.len() + (k - 20 - author.len())] == marker()[k - 20
                - author.len()]);
            assert(text[split + (k - 20 - author.len())] == marker()[k - 20 - author.len()]);
        } else {
            assert(address[28 + author.len() + (k - 28 - author.len())] == tweet_id[k - 28
                - author.len()]);
        }
    }
    assert(occurs_at(text, address, start));
}

/// What a text reads as is its reading.
pub proof fn lemma_reading(text: Seq<char>, author: Seq<char>, tweet_id: Seq<char>)
    requires
        reads_as(text, author, tweet_id),
    ensures
        reading(text) == Some(TweetReferenceView { author, tweet_id }),
{
    let found = TweetReferenceView { author, tweet_id };
    assert(reads_as(text, found.author, found.tweet_id));
    let chosen = choose|reference: TweetReferenceView|
        reads_as(text, reference.author, reference.tweet_id);
    lemma_reading_is_unique(text, author, tweet_id, chosen.author, chosen.tweet_id);
}

/// A text reads as something exactly where it holds a tweet address.
pub proof fn lemma_reads_where_address(text: Seq<char>)
    ensures
        holds_address(text) <==> exists|author: Seq<char>, tweet_id: Seq<char>|
            reads_as(text, author, tweet_id),
{
    if holds_address(text) {
        reveal_strlit("https://twitter.com/");
        reveal_strlit("/status/");
        let (some_start, some_split) = choose|start: int, split: int|
            address_at(text, start, split);
        let start = first_start(text, some_start, some_split);
        let split = last_split(text, start, text.len() as int);
        let end = last_digit(text, split + 8, split + 9);
        assert(digits_end_at(text, split + marker().len(), end));
        assert(reads_as(
            text,
            text.subrange(start + prefix().len(), split),
            text.subrange(split + marker().len(), end),
        ));
    }
}

/// The first place at or before `start` where an address starts.
proof fn first_start(text: Seq<char>, start: int, split: int) -> (first: int)
    requires
        address_at(text, start, split),
    ensures
        exists|other: int| address_at(text, first, other),
        forall|earlier: int, other: int|
            earlier < first ==> !#[trigger] address_at(text, earlier, other),
    decreases start,
{
    if exists|earlier: int, other: int| earlier < start && address_at(text, earlier, other) {
        let (earlier, other) = choose|earlier: int, other: int|
            earlier < start && address_at(text, earlier, other);
        first_start(text, earlier, other)
    } else {
        start
    }
}

/// The last place below `bound` where the handle of the address at `start`
/// can end.
proof fn last_split(text: Seq<char>, start: int, bound: int) -> (split: int)
    requires
        exists|other: int| address_at(text, start, other),
        forall|later: int| later >= bound ==> !#[trigger] address_at(text, start, later),
    ensures
        address_at(text, start, split),
        forall|later: int| later > split ==> !#[trigger] address_at(text, start, later),
    decreases bound,
{
    let other = choose|other: int| address_at(text, start, other);
    assert(0 <= other < bound);
    if address_at(text, start, bound - 1) {
        bound - 1
    } else {
        last_split(text, start, bound - 1)
    }
}

/// The place where the digits that hold `from` and reach `upto` end.
proof fn last_digit(text: Seq<char>, from: int, upto: int) -> (end: int)
    requires
        0 <= from < upto <= text.len(),
        forall|i: int| from <= i < upto ==> is_digit(#[trigger] text[i]),
    ensures
        digits_end_at(text, from, end),
    decreases text.len() - upto,
{
    if upto < text.len() && is_digit(text[upto]) {
        last_digit(text, from, upto + 1)
    } else {
        upto
    }
}

} // verus!
