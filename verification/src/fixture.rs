//! The fixture data: the canned citation list and reply text that the
//! mock engine streams back for every accepted conversation.

use vstd::prelude::*;

use crate::model::Source;
use crate::model::SourceModel;

verus! {

/// The citation text shared by every fixture source.
pub open spec fn fixture_citation() -> Seq<char> {
    "Jackson, Michael. “Beat It.” Thriller, produced by Quincy Jones, Google Play Exclusive Edition, Epic, 1982, play.google.com/store/music/album/Thriller?id=Bzs3hkvcyvinz5tkilucmmoqjhi&hl=en_US."@
}

/// The URL shared by every fixture source.
pub open spec fn fixture_url() -> Seq<char> {
    "https://answers.quantarchive.com/"@
}

/// The four fixture sources, in ascending ordinal order. The index field
/// is opaque and deliberately exercises the extremes of its range.
pub open spec fn fixture_sources() -> Seq<SourceModel> {
    seq![
        SourceModel {
            ordinal: 0,
            index: 98346,
            citation: fixture_citation(),
            url: fixture_url(),
            origin_text: "consectetur adipiscing elit"@,
        },
        SourceModel {
            ordinal: 1,
            index: i64::MAX as int,
            citation: fixture_citation(),
            url: fixture_url(),
            origin_text: "Commodo elit at imperdiet dui accumsan"@,
        },
        SourceModel {
            ordinal: 2,
            index: i64::MIN as int,
            citation: fixture_citation(),
            url: fixture_url(),
            origin_text: "Sem fringilla ut morbi tincidunt augue"@,
        },
        SourceModel {
            ordinal: 3,
            index: 0,
            citation: fixture_citation(),
            url: fixture_url(),
            origin_text: "Egestas tellus rutrum tellus"@,
        },
    ]
}

/// The canned reply text, split into content fragments on single spaces.
pub open spec fn fixture_text() -> Seq<char> {
    "Lorem ipsum dolor sit amet consectetur adipiscing elit sed do eiusmod tempor incididunt ut labore et dolore magna aliqua"@
}

fn fixture_citation_string() -> (r: String)
    ensures
        r@ == fixture_citation(),
{
    String::from_str(
        "Jackson, Michael. “Beat It.” Thriller, produced by Quincy Jones, Google Play Exclusive Edition, Epic, 1982, play.google.com/store/music/album/Thriller?id=Bzs3hkvcyvinz5tkilucmmoqjhi&hl=en_US.",
    )
}

fn fixture_url_string() -> (r: String)
    ensures
        r@ == fixture_url(),
{
    String::from_str("https://answers.quantarchive.com/")
}

/// Builds the fixture source with ordinal `k`.
pub fn fixture_source(k: usize) -> (r: Source)
    requires
        k < 4,
    ensures
        r@ == fixture_sources()[k as int],
{
    if k == 0 {
        Source {
            ordinal: 0,
            index: 98346i64,
            citation: fixture_citation_string(),
            url: fixture_url_string(),
            origin_text: String::from_str("consectetur adipiscing elit"),
        }
    } else if k == 1 {
        Source {
            ordinal: 1,
            index: i64::MAX,
            citation: fixture_citation_string(),
            url: fixture_url_string(),
            origin_text: String::from_str("Commodo elit at imperdiet dui accumsan"),
        }
    } else if k == 2 {
        Source {
            ordinal: 2,
            index: i64::MIN,
            citation: fixture_citation_string(),
            url: fixture_url_string(),
            origin_text: String::from_str("Sem fringilla ut morbi tincidunt augue"),
        }
    } else {
        Source {
            ordinal: 3,
            index: 0i64,
            citation: fixture_citation_string(),
            url: fixture_url_string(),
            origin_text: String::from_str("Egestas tellus rutrum tellus"),
        }
    }
}

/// Builds the fixture citation list, one source per ordinal, in order.
pub fn get_sources_list() -> (r: Vec<Source>)
    ensures
        r@.map_values(|s: Source| s@) == fixture_sources(),
{
    let mut v: Vec<Source> = Vec::new();
    v.push(fixture_source(0));
    v.push(fixture_source(1));
    v.push(fixture_source(2));
    v.push(fixture_source(3));
    proof {
        assert(v@.map_values(|s: Source| s@) =~= fixture_sources());
    }
    v
}

/// The canned reply text as one string; the producer splits it into
/// word fragments.
pub fn message_content() -> (r: &'static str)
    ensures
        r@ == fixture_text(),
{
    "Lorem ipsum dolor sit amet consectetur adipiscing elit sed do eiusmod tempor incididunt ut labore et dolore magna aliqua"
}

} // verus!
