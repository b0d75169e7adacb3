//! What the configuration service computes: the configuration to store, and
//! the subdomain labels a zone offers for selection.

use crate::config::database::{AppConfig, AppConfigView};
use crate::services::cloudflare::{records_view, DnsRecord, DnsRecordView};
use crate::services::reconcile::{Cycle, CycleView, Trigger};
use crate::text::{
    dedup_texts, ends_with, join2, lemma_dedup_of_ascending, opt_text, sort_texts,
    spec_ends_with, spec_trim_end, strictly_ascending, texts, trim_end_matches,
};
use vstd::prelude::*;
use vstd::string::*;

verus! {

/// The configuration that is stored for what the user entered. The address
/// just probed, if there is one, goes in as the last one observed.
pub open spec fn spec_new_configuration(
    api_key: Seq<char>,
    zone_id: Seq<char>,
    root_domain: Seq<char>,
    selected_subdomains: Seq<Seq<char>>,
    check_interval: u64,
    probed: Option<Seq<char>>,
) -> AppConfigView {
    AppConfigView {
        cloudflare_api_key: api_key,
        cloudflare_zone_id: zone_id,
        root_domain,
        selected_subdomains,
        check_interval,
        last_ip: probed,
    }
}

/// The configuration to store for what the user entered, given the address
/// that a probe made just before has found, if it found one.
pub fn save_configuration(
    api_key: String,
    zone_id: String,
    root_domain: String,
    selected_subdomains: Vec<String>,
    check_interval: u64,
    probed: Option<String>,
) -> (config: AppConfig)
    ensures
        config@ == spec_new_configuration(
            api_key@,
            zone_id@,
            root_domain@,
            texts(selected_subdomains@),
            check_interval,
            opt_text(probed),
        ),
{
    AppConfig {
        cloudflare_api_key: api_key,
        cloudflare_zone_id: zone_id,
        root_domain,
        selected_subdomains,
        check_interval,
        last_ip: probed,
    }
}

/// The cycle that runs when the user asks for an update now. It looks at the
/// records even if the address has not changed.
pub fn check_and_update_now() -> (cycle: Cycle)
    ensures
        cycle@ == CycleView::start(Trigger::Manual),
{
    Cycle::new(Trigger::Manual)
}

/// The label that a record name stands for under `root`: the name without
/// its trailing `.root` (however often it is repeated), if the name is not
/// the root itself, ends in `.root`, and something is left.
pub open spec fn spec_label(name: Seq<char>, root: Seq<char>) -> Option<Seq<char>> {
    let suffix = "."@ + root;
    if name != root && spec_ends_with(name, suffix) && spec_trim_end(name, suffix).len() > 0 {
        Some(spec_trim_end(name, suffix))
    } else {
        None
    }
}

/// Whether one of the first `count` records stands for `label`.
pub open spec fn offers_label(
    records: Seq<DnsRecordView>,
    count: int,
    root: Seq<char>,
    label: Seq<char>,
) -> bool {
    exists|i: int| 0 <= i < count && i < records.len() && spec_label(
        (#[trigger] records[i]).name,
        root,
    ) == Some(label)
}

/// The subdomain labels that the records of a zone offer under
/// `root_domain`: each label once, in ascending order.
pub fn get_domain_list(records: &Vec<DnsRecord>, root_domain: &str) -> (labels: Vec<String>)
    ensures
        strictly_ascending(texts(labels@)),
        forall|label: Seq<char>|
            texts(labels@).contains(label) <==> offers_label(
                records_view(records@),
                records@.len() as int,
                root_domain@,
                label,
            ),
{
    let ghost all = records_view(records@);
    let ghost root = root_domain@;
    let suffix = join2(".", root_domain);
    proof {
        reveal_strlit(".");
        assert(suffix@.len() > 0);
    }
    let root_text = String::from_str(root_domain);
    let mut labels: Vec<String> = Vec::new();
    let mut i: usize = 0;
    while i < records.len()
        invariant
            i <= records.len(),
            all == records_view(records@),
            root == root_domain@,
            root_text@ == root,
            suffix@ == "."@ + root,
            suffix@.len() > 0,
            forall|label: Seq<char>|
                texts(labels@).contains(label) <==> offers_label(all, i as int, root, label),
        decreases records.len() - i,
    {
        let ghost before = texts(labels@);
        let record = &records[i];
        let ghost found = spec_label(record@.name, root);
        assert(all[i as int] == record@);
        let mut added = false;
        if record.name != root_text && ends_with(record.name.as_str(), suffix.as_str()) {
            let label = trim_end_matches(record.name.as_str(), suffix.as_str());
            if !label.is_empty() {
                labels.push(String::from_str(label));
                added = true;
            }
        }
        proof {
            assert(added <==> found is Some);
            if added {
                assert(texts(labels@) =~= before.push(found->0));
            }
            let after = texts(labels@);
            assert forall|label: Seq<char>| after.contains(label) <==> offers_label(
                all,
                i + 1,
                root,
                label,
            ) by {
                if after.contains(label) {
                    let k = choose|k: int| 0 <= k < after.len() && after[k] == label;
                    if added && k == before.len() {
                        assert(spec_label(all[i as int].name, root) == Some(label));
                    } else {
                        assert(before[k] == label);
                        assert(before.contains(label));
                        assert(offers_label(all, i as int, root, label));
                        let w = choose|w: int|
                            0 <= w < i && w < all.len() && spec_label(
                                (#[trigger] all[w]).name,
                                root,
                            ) == Some(label);
                        assert(spec_label(all[w].name, root) == Some(label));
                    }
                }
                if offers_label(all, i + 1, root, label) {
                    let w = choose|w: int|
                        0 <= w < i + 1 && w < all.len() && spec_label(
                            (#[trigger] all[w]).name,
                            root,
                        ) == Some(label);
                    if w < i {
                        assert(offers_label(all, i as int, root, label));
                        assert(before.contains(label));
                        let k = choose|k: int| 0 <= k < before.len() && before[k] == label;
                        assert(after[k] == label);
                    } else {
                        assert(found == Some(label));
                        assert(after[after.len() - 1] == label);
                    }
                }
            }
        }
        i += 1;
    }
    let ghost gathered = texts(labels@);
    sort_texts(&mut labels);
    let ghost sorted = texts(labels@);
    dedup_texts(&mut labels);
    proof {
        gathered.to_multiset_ensures();
        sorted.to_multiset_ensures();
        lemma_dedup_of_ascending(sorted);
        assert forall|label: Seq<char>| sorted.contains(label) <==> gathered.contains(label) by {
            assert(sorted.to_multiset().count(label) == gathered.to_multiset().count(label));
        }
    }
    labels
}

} // verus!
