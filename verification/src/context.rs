//! The named values that the page's template is filled with.

use crate::config::Configuration;
use crate::config::ConfigurationView;
use crate::snapshot::Snapshot;
use crate::snapshot::SnapshotView;
use vstd::prelude::*;

verus! {

/// The values of one page, each under the name by which the template asks
/// for it. Made anew for every request.
#[derive(Debug)]
pub struct RenderContext {
    /// The latitude, in decimal text.
    pub latitude: String,
    /// The longitude, in decimal text.
    pub longitude: String,
    /// The text of the data file.
    pub data: String,
    /// The UTC day of the data file's last modification, as `YYYY-MM-DD`.
    pub time: String,
}

/// The mapping that a context of the given configuration and snapshot is:
/// four names, each with its text, nothing changed or escaped.
pub open spec fn context_of(cfg: ConfigurationView, snap: SnapshotView) -> Map<
    Seq<char>,
    Seq<char>,
> {
    map![
        "latitude"@ => cfg.latitude,
        "longitude"@ => cfg.longitude,
        "data"@ => snap.contents,
        "time"@ => snap.modified,
    ]
}

/// The four names of a context.
pub open spec fn context_keys() -> Set<Seq<char>> {
    set!["latitude"@, "longitude"@, "data"@, "time"@]
}

impl View for RenderContext {
    type V = Map<Seq<char>, Seq<char>>;

    open spec fn view(&self) -> Map<Seq<char>, Seq<char>> {
        map![
            "latitude"@ => self.latitude@,
            "longitude"@ => self.longitude@,
            "data"@ => self.data@,
            "time"@ => self.time@,
        ]
    }
}

impl RenderContext {
    /// The name and text pairs of the context, in the order latitude,
    /// longitude, data, time.
    pub fn entries(&self) -> (pairs: Vec<(&'static str, String)>)
        ensures
            pairs@.len() == 4,
            pairs@[0].0@ == "latitude"@ && pairs@[0].1@ == self.latitude@,
            pairs@[1].0@ == "longitude"@ && pairs@[1].1@ == self.longitude@,
            pairs@[2].0@ == "data"@ && pairs@[2].1@ == self.data@,
            pairs@[3].0@ == "time"@ && pairs@[3].1@ == self.time@,
            forall|i: int| 0 <= i < 4 ==> self@.contains_pair(#[trigger] pairs@[i].0@, pairs@[i].1@),
            forall|k: Seq<char>| #[trigger]
                self@.contains_key(k) ==> exists|i: int| 0 <= i < 4 && pairs@[i].0@ == k,
    {
        proof {
            lemma_names_differ();
        }
        let mut pairs: Vec<(&'static str, String)> = Vec::new();
        pairs.push(("latitude", self.latitude.clone()));
        pairs.push(("longitude", self.longitude.clone()));
        pairs.push(("data", self.data.clone()));
        pairs.push(("time", self.time.clone()));
        assert forall|k: Seq<char>| #[trigger] self@.contains_key(k) implies exists|i: int|
            0 <= i < 4 && pairs@[i].0@ == k by {
            if k == "latitude"@ {
                assert(pairs@[0].0@ == k);
            } else if k == "longitude"@ {
                assert(pairs@[1].0@ == k);
            } else if k == "data"@ {
                assert(pairs@[2].0@ == k);
            } else {
                assert(pairs@[3].0@ == k);
            }
        }
        pairs
    }
}

/// Builds the context of one page from the configuration and a snapshot of
/// the data file.
pub fn build_context(cfg: &Configuration, snap: Snapshot) -> (ctx: RenderContext)
    ensures
        ctx.latitude@ == cfg.latitude@,
        ctx.longitude@ == cfg.longitude@,
        ctx.data@ == snap.contents@,
        ctx.time@ == snap.modified@,
        ctx@ == context_of(cfg@, snap@),
{
    RenderContext {
        latitude: cfg.latitude.clone(),
        longitude: cfg.longitude.clone(),
        data: snap.contents,
        time: snap.modified,
    }
}

/// The four names of a context are four different texts.
pub proof fn lemma_names_differ()
    ensures
        "latitude"@ != "longitude"@,
        "latitude"@ != "data"@,
        "latitude"@ != "time"@,
        "longitude"@ != "data"@,
        "longitude"@ != "time"@,
        "data"@ != "time"@,
{
    reveal_strlit("latitude");
    reveal_strlit("longitude");
    reveal_strlit("data");
    reveal_strlit("time");
    assert("latitude"@.len() == 8);
    assert("longitude"@.len() == 9);
    assert("data"@.len() == 4);
    assert("time"@.len() == 4);
    assert("data"@[0] == 'd');
    assert("time"@[0] == 't');
}

/// A context holds exactly four names, `latitude`, `longitude`, `data` and
/// `time`, and under each the text that it was built from.
pub proof fn lemma_context_has_four_keys(ctx: RenderContext)
    ensures
        ctx@.dom() =~= context_keys(),
        context_keys().finite(),
        context_keys().len() == 4,
        ctx@["latitude"@] == ctx.latitude@,
        ctx@["longitude"@] == ctx.longitude@,
        ctx@["data"@] == ctx.data@,
        ctx@["time"@] == ctx.time@,
{
    lemma_names_differ();
    let s0 = Set::<Seq<char>>::empty();
    let s1 = s0.insert("latitude"@);
    let s2 = s1.insert("longitude"@);
    let s3 = s2.insert("data"@);
    let s4 = s3.insert("time"@);
    assert(s4 =~= context_keys());
    assert(s1.len() == 1);
    assert(s2.len() == 2);
    assert(s3.len() == 3);
    assert(s4.len() == 4);
}

} // verus!
