//! What the store reports about deployments: which deployments are asked
//! for, and what a shard tells about each.

use crate::ids::valid_deployment_id;
use crate::primary::PrimaryView;
use crate::records::{
    clone_text, clone_texts, number, text, texts, DeploymentRecord, DeploymentView, Store,
    SubgraphHealth,
};
use crate::table::{lemma_empty_table, lemma_select_where_push, select_where};
use vstd::prelude::*;

verus! {

/// Which deployments a report is asked for.
#[derive(Debug, PartialEq, Eq)]
pub enum Filter {
    /// The deployments of the subgraph with this name.
    SubgraphName(String),
    /// The current deployment of the subgraph with this name where the
    /// flag holds, else its pending deployment.
    SubgraphVersion(String, bool),
    /// The deployments with these ids.
    Deployments(Vec<String>),
}

/// The mathematical value of a filter.
pub enum FilterView {
    SubgraphName(Seq<char>),
    SubgraphVersion(Seq<char>, bool),
    Deployments(Seq<Seq<char>>),
}

impl View for Filter {
    type V = FilterView;

    open spec fn view(&self) -> FilterView {
        match self {
            Filter::SubgraphName(name) => FilterView::SubgraphName(name@),
            Filter::SubgraphVersion(name, current) => FilterView::SubgraphVersion(name@, *current),
            Filter::Deployments(ids) => FilterView::Deployments(texts(ids@)),
        }
    }
}

/// What a shard tells about one deployment.
#[derive(Debug, PartialEq, Eq)]
pub struct Info {
    /// The id of the deployment.
    pub subgraph: String,
    pub synced: bool,
    pub health: SubgraphHealth,
    pub fatal_error: Option<String>,
    pub non_fatal_errors: Vec<String>,
    /// The stored number of the earliest block.
    pub earliest_block_number: Option<i64>,
    /// The stored number of the latest block.
    pub latest_block_number: Option<i64>,
}

/// The mathematical value of a report about one deployment.
pub struct InfoView {
    pub subgraph: Seq<char>,
    pub synced: bool,
    pub health: SubgraphHealth,
    pub fatal_error: Option<Seq<char>>,
    pub non_fatal_errors: Seq<Seq<char>>,
    pub earliest_block_number: Option<int>,
    pub latest_block_number: Option<int>,
}

impl View for Info {
    type V = InfoView;

    open spec fn view(&self) -> InfoView {
        InfoView {
            subgraph: self.subgraph@,
            synced: self.synced,
            health: self.health,
            fatal_error: text(self.fatal_error),
            non_fatal_errors: texts(self.non_fatal_errors@),
            earliest_block_number: number(self.earliest_block_number),
            latest_block_number: number(self.latest_block_number),
        }
    }
}

/// The values of a list of reports, in order.
pub open spec fn infos_view(infos: Seq<Info>) -> Seq<InfoView> {
    infos.map_values(|i: Info| i@)
}

/// What a record tells about its deployment.
pub open spec fn info_of(row: DeploymentView) -> InfoView {
    InfoView {
        subgraph: row.id,
        synced: row.synced,
        health: row.health,
        fatal_error: row.fatal_error,
        non_fatal_errors: row.non_fatal_errors,
        earliest_block_number: row.earliest_block_number,
        latest_block_number: row.latest_block_number,
    }
}

/// The test that a record is about one of the deployments `ids`.
pub open spec fn deployment_among(ids: Seq<Seq<char>>) -> spec_fn(DeploymentView) -> bool {
    |r: DeploymentView| ids.contains(r.id)
}

/// What the records `rows` tell about the deployments `ids`: one report
/// for each record that is about one of them, in the order of the records.
pub open spec fn statuses(rows: Seq<DeploymentView>, ids: Seq<Seq<char>>) -> Seq<InfoView> {
    select_where(rows, deployment_among(ids)).map_values(|r: DeploymentView| info_of(r))
}

/// The deployments that `filter` asks for, as the primary gives them.
pub open spec fn requested(primary: PrimaryView, filter: FilterView) -> Seq<Seq<char>> {
    match filter {
        FilterView::SubgraphName(name) => primary.deployments_of(name),
        FilterView::SubgraphVersion(name, use_current) => match (if use_current {
            primary.current_of(name)
        } else {
            primary.pending_of(name)
        }) {
            Some(id) => seq![id],
            None => Seq::empty(),
        },
        FilterView::Deployments(ids) => ids,
    }
}

/// The test that the primary can place the deployment `id`: the id is well
/// formed and a placement is recorded for it.
pub open spec fn placeable(primary: PrimaryView) -> spec_fn(Seq<char>) -> bool {
    |id: Seq<char>| valid_deployment_id(id) && primary.site(id) is Some
}

/// The shard in which the primary has placed the deployment `id`.
pub open spec fn shard_name(primary: PrimaryView, id: Seq<char>) -> Seq<char> {
    primary.site(id)->0.shard
}

/// The test that the primary has placed a deployment in `shard`.
pub open spec fn placed_in(primary: PrimaryView, shard: Seq<char>) -> spec_fn(Seq<char>) -> bool {
    |id: Seq<char>| shard_name(primary, id) == shard
}

/// The shards in which the deployments `ids` are placed, each once, in the
/// order in which they first occur.
pub open spec fn shards_of(primary: PrimaryView, ids: Seq<Seq<char>>) -> Seq<Seq<char>>
    decreases ids.len(),
{
    if ids.len() == 0 {
        Seq::empty()
    } else {
        let before = shards_of(primary, ids.drop_last());
        let shard = shard_name(primary, ids.last());
        if before.contains(shard) {
            before
        } else {
            before.push(shard)
        }
    }
}

/// Whether `texts` holds the text `s`.
pub fn contains_text(list: &Vec<String>, s: &String) -> (r: bool)
    ensures
        r == texts(list@).contains(s@),
{
    let mut i: usize = 0;
    while i < list.len()
        invariant
            i <= list@.len(),
            forall|j: int| 0 <= j < i ==> texts(list@)[j] != s@,
        decreases list.len() - i,
    {
        if list[i] == *s {
            assert(texts(list@)[i as int] == s@);
            return true;
        }
        i = i + 1;
    }
    false
}

/// What a record tells about its deployment.
pub fn make_info(row: &DeploymentRecord) -> (r: Info)
    ensures
        r@ == info_of(row@),
{
    Info {
        subgraph: row.id.clone(),
        synced: row.synced,
        health: row.health,
        fatal_error: clone_text(&row.fatal_error),
        non_fatal_errors: clone_texts(&row.non_fatal_errors),
        earliest_block_number: row.earliest_ethereum_block_number,
        latest_block_number: row.latest_ethereum_block_number,
    }
}

/// What the shard tells about the deployments `ids`: one report for each
/// record that is about one of them, in the order of the records.
pub fn deployment_statuses(store: &Store, ids: &Vec<String>) -> (r: Vec<Info>)
    ensures
        infos_view(r@) == statuses(store@.deployments, texts(ids@)),
{
    let ghost rows = store@.deployments;
    let ghost p = deployment_among(texts(ids@));
    let ghost f = |r: DeploymentView| info_of(r);
    let mut out: Vec<Info> = Vec::new();
    let mut i: usize = 0;
    proof {
        lemma_empty_table(p);
    }
    while i < store.deployments.len()
        invariant
            i <= store.deployments@.len(),
            rows == store@.deployments,
            p == deployment_among(texts(ids@)),
            f == (|r: DeploymentView| info_of(r)),
            infos_view(out@) == select_where(rows.take(i as int), p).map_values(f),
        decreases store.deployments.len() - i,
    {
        proof {
            assert(rows.take(i + 1) =~= rows.take(i as int).push(rows[i as int]));
            lemma_select_where_push(rows.take(i as int), p, rows[i as int]);
        }
        if contains_text(ids, &store.deployments[i].id) {
            out.push(make_info(&store.deployments[i]));
            assert(select_where(rows.take(i as int), p).push(rows[i as int]).map_values(f)
                =~= select_where(rows.take(i as int), p).map_values(f).push(f(rows[i as int])));
        }
        i = i + 1;
    }
    assert(rows.take(store.deployments@.len() as int) =~= rows);
    out
}

} // verus!
