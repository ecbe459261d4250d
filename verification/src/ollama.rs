//! The models of Ollama that the first run offers: those that are recommended,
//! and those that are there already.
use vstd::prelude::*;

use crate::text::{push_text, same, texts};

verus! {

/// A model that is recommended.
#[derive(Clone, Debug)]
pub struct RecommendedModel {
    pub id: String,
    pub label: String,
    pub size: String,
}

pub struct RecommendedView {
    pub id: Seq<char>,
    pub label: Seq<char>,
    pub size: Seq<char>,
}

impl View for RecommendedModel {
    type V = RecommendedView;

    open spec fn view(&self) -> RecommendedView {
        RecommendedView { id: self.id@, label: self.label@, size: self.size@ }
    }
}

pub open spec fn recommended_views(v: Seq<RecommendedModel>) -> Seq<RecommendedView> {
    Seq::new(v.len(), |i: int| v[i]@)
}

/// A model that is offered.
#[derive(Clone, Debug)]
pub struct OllamaModelOption {
    pub id: String,
    pub label: String,
    pub size: String,
    pub installed: bool,
}

pub struct OptionView {
    pub id: Seq<char>,
    pub label: Seq<char>,
    pub size: Seq<char>,
    pub installed: bool,
}

impl View for OllamaModelOption {
    type V = OptionView;

    open spec fn view(&self) -> OptionView {
        OptionView {
            id: self.id@,
            label: self.label@,
            size: self.size@,
            installed: self.installed,
        }
    }
}

pub open spec fn option_views(v: Seq<OllamaModelOption>) -> Seq<OptionView> {
    Seq::new(v.len(), |i: int| v[i]@)
}

/// What the models are called.
pub open spec fn option_ids(v: Seq<OptionView>) -> Seq<Seq<char>> {
    Seq::new(v.len(), |i: int| v[i].id)
}

/// `name` is among the recommended models.
pub open spec fn is_recommended(recommended: Seq<RecommendedView>, name: Seq<char>) -> bool {
    exists|i: int| 0 <= i < recommended.len() && (#[trigger] recommended[i]).id == name
}

/// The recommended models, in their order, each marked as installed or not.
pub open spec fn recommended_options(
    recommended: Seq<RecommendedView>,
    local: Seq<Seq<char>>,
) -> Seq<OptionView> {
    Seq::new(
        recommended.len(),
        |i: int|
            OptionView {
                id: recommended[i].id,
                label: recommended[i].label,
                size: recommended[i].size,
                installed: local.contains(recommended[i].id),
            },
    )
}

/// A model that is installed without being recommended.
pub open spec fn local_option(name: Seq<char>) -> OptionView {
    OptionView { id: name, label: name, size: Seq::empty(), installed: true }
}

/// Those of the first `n` installed models that are not recommended.
pub open spec fn extras_below(
    recommended: Seq<RecommendedView>,
    local: Seq<Seq<char>>,
    n: nat,
) -> Seq<OptionView>
    decreases n,
{
    if n == 0 {
        Seq::empty()
    } else if is_recommended(recommended, local[n - 1]) {
        extras_below(recommended, local, (n - 1) as nat)
    } else {
        extras_below(recommended, local, (n - 1) as nat).push(local_option(local[n - 1]))
    }
}

/// The models to offer: the recommended ones first, then those that are
/// installed besides.
pub open spec fn merged_models(
    recommended: Seq<RecommendedView>,
    local: Seq<Seq<char>>,
) -> Seq<OptionView> {
    recommended_options(recommended, local) + extras_below(recommended, local, local.len())
}

fn among_texts(v: &Vec<String>, s: &str) -> (r: bool)
    ensures
        r == texts(v@).contains(s@),
{
    let ghost all = texts(v@);
    let mut i: usize = 0;
    while i < v.len()
        invariant
            i <= v@.len(),
            all == texts(v@),
            forall|k: int| 0 <= k < i ==> #[trigger] all[k] != s@,
        decreases v.len() - i,
    {
        if same(v[i].as_str(), s) {
            assert(all[i as int] == s@);
            return true;
        }
        i += 1;
    }
    false
}

fn among_recommended(v: &Vec<RecommendedModel>, name: &str) -> (r: bool)
    ensures
        r == is_recommended(recommended_views(v@), name@),
{
    let ghost all = recommended_views(v@);
    let mut i: usize = 0;
    while i < v.len()
        invariant
            i <= v@.len(),
            all == recommended_views(v@),
            forall|k: int| 0 <= k < i ==> (#[trigger] all[k]).id != name@,
        decreases v.len() - i,
    {
        if same(v[i].id.as_str(), name) {
            assert(all[i as int].id == name@);
            return true;
        }
        i += 1;
    }
    false
}

/// The recommended models, each marked as installed or not.
fn mark_recommended(recommended: &Vec<RecommendedModel>, local: &Vec<String>) -> (r: Vec<
    OllamaModelOption,
>)
    ensures
        option_views(r@) == recommended_options(recommended_views(recommended@), texts(local@)),
{
    let ghost all = recommended_options(recommended_views(recommended@), texts(local@));
    let mut r: Vec<OllamaModelOption> = Vec::new();
    let mut i: usize = 0;
    while i < recommended.len()
        invariant
            i <= recommended@.len(),
            all == recommended_options(recommended_views(recommended@), texts(local@)),
            option_views(r@) =~= all.take(i as int),
        decreases recommended.len() - i,
    {
        let m = &recommended[i];
        let option = OllamaModelOption {
            id: m.id.clone(),
            label: m.label.clone(),
            size: m.size.clone(),
            installed: among_texts(local, m.id.as_str()),
        };
        let ghost before = option_views(r@);
        assert(option@ == all[i as int]);
        r.push(option);
        assert(option_views(r@) =~= before.push(option@));
        assert(all.take(i + 1) =~= all.take(i as int).push(all[i as int]));
        i += 1;
    }
    assert(all.take(i as int) =~= all);
    r
}

/// The models to offer, given the recommended ones and those that are
/// installed.
pub fn merge_models(recommended: &Vec<RecommendedModel>, local: &Vec<String>) -> (r: Vec<
    OllamaModelOption,
>)
    ensures
        option_views(r@) == merged_models(recommended_views(recommended@), texts(local@)),
{
    let ghost wanted = recommended_views(recommended@);
    let ghost names = texts(local@);
    let mut r = mark_recommended(recommended, local);
    let mut i: usize = 0;
    while i < local.len()
        invariant
            i <= local@.len(),
            wanted == recommended_views(recommended@),
            names == texts(local@),
            option_views(r@) =~= recommended_options(wanted, names) + extras_below(
                wanted,
                names,
                i as nat,
            ),
        decreases local.len() - i,
    {
        let name = &local[i];
        assert(names[i as int] == name@);
        if !among_recommended(recommended, name.as_str()) {
            let option = OllamaModelOption {
                id: name.clone(),
                label: name.clone(),
                size: String::new(),
                installed: true,
            };
            let ghost before = option_views(r@);
            assert(option@.size =~= Seq::<char>::empty());
            r.push(option);
            assert(option_views(r@) =~= before.push(option@));
        }
        i += 1;
    }
    r
}

/// What asking Ollama for its models gave, and the models to recommend.
#[derive(Debug)]
pub struct OllamaListing {
    pub listed: Result<Vec<String>, String>,
    pub recommended: Vec<RecommendedModel>,
}

impl OllamaListing {
    /// The models to offer; where Ollama could not be asked, none is installed.
    pub open spec fn offers(self) -> Seq<OptionView> {
        merged_models(
            recommended_views(self.recommended@),
            match self.listed {
                Ok(names) => texts(names@),
                Err(_) => Seq::empty(),
            },
        )
    }

    /// The models to offer.
    pub fn options(&self) -> (r: Vec<OllamaModelOption>)
        ensures
            option_views(r@) == self.offers(),
    {
        match &self.listed {
            Ok(names) => merge_models(&self.recommended, names),
            Err(_) => {
                let none: Vec<String> = Vec::new();
                assert(texts(none@) =~= Seq::<Seq<char>>::empty());
                merge_models(&self.recommended, &none)
            },
        }
    }
}

/// What the models are called.
pub fn ids_of(v: &Vec<OllamaModelOption>) -> (r: Vec<String>)
    ensures
        texts(r@) == option_ids(option_views(v@)),
{
    let ghost all = option_ids(option_views(v@));
    let mut r: Vec<String> = Vec::new();
    let mut i: usize = 0;
    while i < v.len()
        invariant
            i <= v@.len(),
            all == option_ids(option_views(v@)),
            texts(r@) =~= all.take(i as int),
        decreases v.len() - i,
    {
        assert(v@[i as int]@.id == all[i as int]);
        push_text(&mut r, v[i].id.clone());
        assert(all.take(i + 1) =~= all.take(i as int).push(all[i as int]));
        i += 1;
    }
    assert(all.take(i as int) =~= all);
    r
}

// ─── Laws ────────────────────────────────────────────────────────────────────

proof fn extras_facts(recommended: Seq<RecommendedView>, local: Seq<Seq<char>>, n: nat)
    requires
        n <= local.len(),
    ensures
        forall|i: int|
            0 <= i < extras_below(recommended, local, n).len() ==> {
                let o = #[trigger] extras_below(recommended, local, n)[i];
                o.installed && local.contains(o.id) && !is_recommended(recommended, o.id)
            },
        forall|j: int|
            0 <= j < n && !is_recommended(recommended, #[trigger] local[j]) ==> extras_below(
                recommended,
                local,
                n,
            ).contains(local_option(local[j])),
    decreases n,
{
    if n > 0 {
        let before = extras_below(recommended, local, (n - 1) as nat);
        let all = extras_below(recommended, local, n);
        extras_facts(recommended, local, (n - 1) as nat);
        assert forall|j: int|
            0 <= j < n && !is_recommended(recommended, #[trigger] local[j]) implies all.contains(
            local_option(local[j]),
        ) by {
            if j < n - 1 {
                assert(before.contains(local_option(local[j])));
                let k = choose|k: int| 0 <= k < before.len() && before[k] == local_option(local[j]);
                assert(all[k] == local_option(local[j]));
            } else {
                assert(all[all.len() - 1] == local_option(local[j]));
            }
        }
    }
}

/// What is offered: a model is marked as installed exactly if it is, every
/// model that is offered is recommended or installed, and none of these is left
/// out.
pub proof fn offers_are_exact(
    recommended: Seq<RecommendedView>,
    local: Seq<Seq<char>>,
    name: Seq<char>,
)
    ensures
        forall|i: int|
            0 <= i < merged_models(recommended, local).len() ==> {
                let o = #[trigger] merged_models(recommended, local)[i];
                o.installed == local.contains(o.id)
            },
        option_ids(merged_models(recommended, local)).contains(name) <==> is_recommended(
            recommended,
            name,
        ) || local.contains(name),
{
    let all = merged_models(recommended, local);
    let front = recommended_options(recommended, local);
    let extras = extras_below(recommended, local, local.len());
    extras_facts(recommended, local, local.len());
    assert forall|i: int| 0 <= i < all.len() implies {
        let o = #[trigger] all[i];
        o.installed == local.contains(o.id)
    } by {
        if i >= front.len() {
            assert(all[i] == extras[i - front.len()]);
        }
    }
    if is_recommended(recommended, name) {
        let i = choose|i: int| 0 <= i < recommended.len() && (#[trigger] recommended[i]).id == name;
        assert(option_ids(all)[i] == name);
    } else if local.contains(name) {
        let j = choose|j: int| 0 <= j < local.len() && local[j] == name;
        assert(extras.contains(local_option(local[j])));
        let k = choose|k: int| 0 <= k < extras.len() && extras[k] == local_option(local[j]);
        assert(option_ids(all)[front.len() + k] == name);
    }
    if option_ids(all).contains(name) {
        let i = choose|i: int| 0 <= i < all.len() && option_ids(all)[i] == name;
        if i < front.len() {
            assert(recommended[i].id == name);
        } else {
            assert(all[i] == extras[i - front.len()]);
        }
    }
}

} // verus!
