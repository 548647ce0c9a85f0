//! Choosing the video of a tweet: the way through the tweet to its list of
//! variants, and the pick of the variant with the highest bitrate.

use crate::failure::Failure;
use crate::failure::FailureView;
use crate::failure::PathSegment;
use crate::json::elements;
use crate::json::parsed_json;
use crate::json::parse_json;
use crate::json::Json;
use crate::json::JsonView;
use vstd::prelude::*;
use vstd::string::*;

verus! {

/// What a tweet holds under `extended_entities`, `media`, the first element,
/// `video_info`, `variants`. A step that is missing before `variants` is a
/// failure that names the step; a missing `variants` is `Ok(None)`.
pub open spec fn variants_of(tweet: JsonView) -> Result<Option<JsonView>, FailureView> {
    match tweet.get("extended_entities"@) {
        None => Err(FailureView::MissingSegment(PathSegment::ExtendedEntities)),
        Some(entities) => match entities.get("media"@) {
            None => Err(FailureView::MissingSegment(PathSegment::Media)),
            Some(media) => match media.at(0) {
                None => Err(FailureView::MissingSegment(PathSegment::FirstMedia)),
                Some(first) => match first.get("video_info"@) {
                    None => Err(FailureView::MissingSegment(PathSegment::VideoInfo)),
                    Some(info) => Ok(info.get("variants"@)),
                },
            },
        },
    }
}

/// What a variant brings to the choice: its bitrate and what it holds under
/// `url`. A variant without a `url`, or whose `bitrate` is missing or not a
/// non-negative integer, brings nothing.
pub open spec fn offer(variant: JsonView) -> Option<(u64, JsonView)> {
    match (variant.get("bitrate"@), variant.get("url"@)) {
        (Some(bitrate), Some(url)) => match bitrate.as_u64() {
            Some(rate) => Some((rate, url)),
            None => None,
        },
        _ => None,
    }
}

/// The best offer so far: the highest bitrate seen and the address that came
/// with it. Before any offer the bitrate is 0 and the address is empty.
pub struct Best {
    pub bitrate: u64,
    pub url: Seq<char>,
}

/// The best offer after the variants have been read from first to last. An
/// offer replaces the best one only where its bitrate is strictly higher; its
/// address must then be text, else the reading fails with `UrlNotText`.
pub open spec fn best_offer(variants: Seq<JsonView>) -> Result<Best, FailureView>
    decreases variants.len(),
{
    if variants.len() == 0 {
        Ok(Best { bitrate: 0, url: Seq::empty() })
    } else {
        match best_offer(variants.drop_last()) {
            Err(failure) => Err(failure),
            Ok(best) => match offer(variants.last()) {
                Some((rate, url)) => if rate > best.bitrate {
                    match url.as_str() {
                        Some(text) => Ok(Best { bitrate: rate, url: text }),
                        None => Err(FailureView::UrlNotText),
                    }
                } else {
                    Ok(best)
                },
                None => Ok(best),
            },
        }
    }
}

/// The address of the video of a tweet: `Ok(None)` where the tweet has no
/// `variants`, else the address of the best offer, which is empty where no
/// variant offers a bitrate above 0.
pub open spec fn video_url(tweet: JsonView) -> Result<Option<Seq<char>>, FailureView> {
    match variants_of(tweet) {
        Err(failure) => Err(failure),
        Ok(None) => Ok(None),
        Ok(Some(variants)) => match variants.as_array() {
            None => Err(FailureView::VariantsNotList),
            Some(list) => match best_offer(list) {
                Err(failure) => Err(failure),
                Ok(best) => Ok(Some(best.url)),
            },
        },
    }
}

/// Walks from the tweet to what it holds under `variants`.
pub fn find_variants(tweet: &Json) -> (found: Result<Option<&Json>, Failure>)
    ensures
        match found {
            Ok(Some(variants)) => variants_of(tweet@) == Ok::<_, FailureView>(Some(variants@)),
            Ok(None) => variants_of(tweet@) == Ok::<Option<JsonView>, FailureView>(None),
            Err(failure) => variants_of(tweet@) == Err::<Option<JsonView>, FailureView>(failure@),
        },
{
    let entities = match tweet.get("extended_entities") {
        Some(entities) => entities,
        None => return Err(Failure::MissingSegment(PathSegment::ExtendedEntities)),
    };
    let media = match entities.get("media") {
        Some(media) => media,
        None => return Err(Failure::MissingSegment(PathSegment::Media)),
    };
    let first = match media.at(0) {
        Some(first) => first,
        None => return Err(Failure::MissingSegment(PathSegment::FirstMedia)),
    };
    let info = match first.get("video_info") {
        Some(info) => info,
        None => return Err(Failure::MissingSegment(PathSegment::VideoInfo)),
    };
    Ok(info.get("variants"))
}

/// Reads the variants from first to last and returns the address of the one
/// with the highest bitrate; among equals, that of the first.
pub fn select_variant(variants: &Vec<Json>) -> (selected: Result<String, Failure>)
    ensures
        match selected {
            Ok(url) => best_offer(elements(variants@)) matches Ok(best) && best.url == url@,
            Err(failure) => best_offer(elements(variants@)) == Err::<Best, FailureView>(failure@),
        },
{
    let mut max_bitrate: u64 = 0;
    let mut max_bitrate_video_url: &str = "";
    let ghost list = elements(variants@);
    proof {
        reveal_strlit("");
        assert(max_bitrate_video_url@ == Seq::<char>::empty());
        assert(list.take(0) == Seq::<JsonView>::empty());
    }
    let mut i: usize = 0;
    while i < variants.len()
        invariant
            i <= variants.len(),
            list == elements(variants@),
            best_offer(list.take(i as int)) == Ok::<_, FailureView>(
                Best { bitrate: max_bitrate, url: max_bitrate_video_url@ },
            ),
        decreases variants.len() - i,
    {
        let variant = &variants[i];
        proof {
            assert(list.take(i as int + 1).drop_last() == list.take(i as int));
            assert(list.take(i as int + 1).last() == variant@);
        }
        if let Some(bitrate_value) = variant.get("bitrate") {
            if let Some(url) = variant.get("url") {
                if let Some(bitrate) = bitrate_value.as_u64() {
                    if bitrate > max_bitrate {
                        match url.as_str() {
                            Some(text) => {
                                max_bitrate = bitrate;
                                max_bitrate_video_url = text;
                            },
                            None => {
                                proof {
                                    lemma_failure_stays(list, i as int + 1);
                                }
                                return Err(Failure::UrlNotText);
                            },
                        }
                    }
                }
            }
        }
        i += 1;
    }
    proof {
        assert(list.take(i as int) == list);
    }
    Ok(max_bitrate_video_url.to_owned())
}

/// The address of the video of a tweet.
///
/// Fails where a step on the way to `variants` is missing, where `variants`
/// is not a list, and where the address of an offer that becomes the best is
/// not text. Returns `Ok(None)` where the tweet has no `variants`.
pub fn extract_tweet_video_url(value: &Json) -> (found: Result<Option<String>, Failure>)
    ensures
        match found {
            Ok(Some(url)) => video_url(value@) == Ok::<_, FailureView>(Some(url@)),
            Ok(None) => video_url(value@) == Ok::<Option<Seq<char>>, FailureView>(None),
            Err(failure) => video_url(value@) == Err::<Option<Seq<char>>, FailureView>(failure@),
        },
{
    let variants = match find_variants(value) {
        Ok(Some(variants)) => variants,
        Ok(None) => return Ok(None),
        Err(failure) => return Err(failure),
    };
    let list = match variants.as_array() {
        Some(list) => list,
        None => return Err(Failure::VariantsNotList),
    };
    match select_variant(list) {
        Ok(url) => Ok(Some(url)),
        Err(failure) => Err(failure),
    }
}

/// Once the reading of a beginning of the list has failed, the reading of
/// the whole list fails in the same way.
pub proof fn lemma_failure_stays(variants: Seq<JsonView>, upto: int)
    requires
        0 <= upto <= variants.len(),
        best_offer(variants.take(upto)) is Err,
    ensures
        best_offer(variants) == best_offer(variants.take(upto)),
    decreases variants.len() - upto,
{
    if upto == variants.len() {
        assert(variants.take(upto) == variants);
    } else {
        assert(variants.take(upto + 1).drop_last() == variants.take(upto));
        lemma_failure_stays(variants, upto + 1);
    }
}

/// The address of the video of the tweet that a body holds. A body that is
/// not JSON is the failure `InvalidJson`.
pub open spec fn video_url_of(body: Seq<char>) -> Result<Option<Seq<char>>, FailureView> {
    match parsed_json(body) {
        Err(failure) => Err(failure),
        Ok(tweet) => video_url(tweet),
    }
}

/// Reads the address of the video from the body of the answer to the tweet
/// lookup.
pub fn read_video_url(body: &str) -> (found: Result<Option<String>, Failure>)
    ensures
        match found {
            Ok(Some(url)) => video_url_of(body@) == Ok::<_, FailureView>(Some(url@)),
            Ok(None) => video_url_of(body@) == Ok::<Option<Seq<char>>, FailureView>(None),
            Err(failure) => video_url_of(body@) == Err::<Option<Seq<char>>, FailureView>(failure@),
        },
{
    match parse_json(body) {
        Ok(tweet) => extract_tweet_video_url(&tweet),
        Err(failure) => Err(failure),
    }
}

/// The bitrate that a variant offers, if it offers any.
pub open spec fn offered_rate(variant: JsonView) -> Option<u64> {
    match offer(variant) {
        Some((rate, _)) => Some(rate),
        None => None,
    }
}

/// What the variant holds under `url`, if it offers anything.
pub open spec fn offered_url(variant: JsonView) -> Option<JsonView> {
    match offer(variant) {
        Some((_, url)) => Some(url),
        None => None,
    }
}

/// The variant at `index` offers the bitrate `bitrate`, and every variant
/// before it offers less.
pub open spec fn is_first_highest(variants: Seq<JsonView>, index: int, bitrate: u64) -> bool {
    &&& 0 <= index < variants.len()
    &&& offered_rate(variants[index]) == Some(bitrate)
    &&& forall|earlier: int|
        0 <= earlier < index ==> (#[trigger] offered_rate(variants[earlier]) matches Some(rate)
            ==> rate < bitrate)
}

/// No variant offers more than the best offer.
pub proof fn lemma_best_is_highest(variants: Seq<JsonView>)
    requires
        best_offer(variants) is Ok,
    ensures
        forall|i: int|
            0 <= i < variants.len() ==> (#[trigger] offered_rate(variants[i]) matches Some(rate)
                ==> rate <= best_offer(variants)->Ok_0.bitrate),
    decreases variants.len(),
{
    if variants.len() > 0 {
        let before = variants.drop_last();
        lemma_best_is_highest(before);
        assert forall|i: int| 0 <= i < variants.len() implies (#[trigger] offered_rate(
            variants[i],
        ) matches Some(rate) ==> rate <= best_offer(variants)->Ok_0.bitrate) by {
            if i < variants.len() - 1 {
                assert(before[i] == variants[i]);
            }
        }
    }
}

/// A best offer above 0 is that of the first variant with the highest
/// bitrate: where two variants offer the same, the earlier one wins. Its
/// address is the text that this variant holds under `url`.
pub proof fn lemma_first_wins(variants: Seq<JsonView>) -> (index: int)
    requires
        best_offer(variants) is Ok,
        best_offer(variants)->Ok_0.bitrate > 0,
    ensures
        is_first_highest(variants, index, best_offer(variants)->Ok_0.bitrate),
        offered_url(variants[index]) == Some(JsonView::Text(best_offer(variants)->Ok_0.url)),
    decreases variants.len(),
{
    let before = variants.drop_last();
    let best = best_offer(variants)->Ok_0;
    let earlier_best = best_offer(before)->Ok_0;
    let last = variants.len() - 1;
    if offered_rate(variants.last()) matches Some(rate) && rate > earlier_best.bitrate {
        lemma_best_is_highest(before);
        assert forall|earlier: int| 0 <= earlier < last implies (#[trigger] offered_rate(
            variants[earlier],
        ) matches Some(rate) ==> rate < best.bitrate) by {
            assert(before[earlier] == variants[earlier]);
        }
        last
    } else {
        let index = lemma_first_wins(before);
        assert(before[index] == variants[index]);
        assert forall|earlier: int| 0 <= earlier < index implies (#[trigger] offered_rate(
            variants[earlier],
        ) matches Some(rate) ==> rate < best.bitrate) by {
            assert(before[earlier] == variants[earlier]);
        }
        index
    }
}

/// A best offer of 0 comes with the empty address.
pub proof fn lemma_nothing_offered(variants: Seq<JsonView>)
    requires
        best_offer(variants) is Ok,
        best_offer(variants)->Ok_0.bitrate == 0,
    ensures
        best_offer(variants)->Ok_0.url == Seq::<char>::empty(),
    decreases variants.len(),
{
    if variants.len() > 0 {
        lemma_nothing_offered(variants.drop_last());
    }
}

/// Where no variant offers a bitrate above 0, the address is empty.
pub proof fn lemma_no_offer_above_zero(variants: Seq<JsonView>)
    requires
        best_offer(variants) is Ok,
        forall|i: int|
            0 <= i < variants.len() ==> (#[trigger] offered_rate(variants[i]) matches Some(rate)
                ==> rate == 0),
    ensures
        best_offer(variants)->Ok_0.bitrate == 0,
        best_offer(variants)->Ok_0.url == Seq::<char>::empty(),
{
    if best_offer(variants)->Ok_0.bitrate > 0 {
        let index = lemma_first_wins(variants);
        assert(offered_rate(variants[index]) is Some);
    }
    lemma_nothing_offered(variants);
}

/// A tweet that has `variants` never counts as a tweet without video: once
/// the list is there, an address is found or the reading fails.
pub proof fn lemma_found_once_variants_exist(tweet: JsonView)
    requires
        variants_of(tweet) matches Ok(Some(_)),
    ensures
        video_url(tweet) != Ok::<Option<Seq<char>>, FailureView>(None),
{
}

/// The variant at `index` takes the lead: it offers a bitrate above 0 and
/// above every offer before it.
pub open spec fn takes_lead(variants: Seq<JsonView>, index: int) -> bool {
    &&& 0 <= index < variants.len()
    &&& offered_rate(variants[index]) matches Some(rate)
    &&& rate > 0
    &&& is_first_highest(variants, index, rate)
}

/// The reading of the variants fails exactly where a variant that takes the
/// lead holds something else than text under `url`; the failure is
/// `UrlNotText`.
pub proof fn lemma_fails_where_leader_lacks_text(variants: Seq<JsonView>)
    ensures
        best_offer(variants) is Err <==> exists|index: int|
            #[trigger] takes_lead(variants, index) && !(offered_url(variants[index]) matches Some(
                JsonView::Text(_),
            )),
        best_offer(variants) is Err ==> best_offer(variants) == Err::<Best, FailureView>(
            FailureView::UrlNotText,
        ),
    decreases variants.len(),
{
    if variants.len() > 0 {
        let before = variants.drop_last();
        let last = variants.len() - 1;
        lemma_fails_where_leader_lacks_text(before);
        assert forall|index: int| 0 <= index < last implies (takes_lead(before, index)
            <==> takes_lead(variants, index)) by {
            assert(before[index] == variants[index]);
            assert forall|earlier: int| 0 <= earlier < index implies before[earlier]
                == variants[earlier] by {}
        }
        if best_offer(before) is Err {
            let index = choose|index: int|
                #[trigger] takes_lead(before, index) && !(offered_url(before[index]) matches Some(
                    JsonView::Text(_),
                ));
            assert(before[index] == variants[index]);
            assert(takes_lead(variants, index));
        } else {
            let best = best_offer(before)->Ok_0;
            lemma_best_is_highest(before);
            assert forall|earlier: int| 0 <= earlier < last implies before[earlier]
                == variants[earlier] by {}
            if best.bitrate > 0 {
                let first = lemma_first_wins(before);
                assert(before[first] == variants[first]);
            }
            if best_offer(variants) is Err {
                assert(takes_lead(variants, last));
            } else {
                assert forall|index: int| #[trigger]
                    takes_lead(variants, index) implies offered_url(
                    variants[index],
                ) matches Some(JsonView::Text(_)) by {
                    if index < last {
                        assert(takes_lead(before, index));
                        assert(before[index] == variants[index]);
                    }
                }
            }
        }
    }
}

} // verus!
