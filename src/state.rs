use crate::msg::{ContractResponse, OracleHolder, PriceData};
use std::collections::HashMap;
use vstd::prelude::*;

verus! {

broadcast use vstd::std_specs::hash::group_hash_axioms;

/// What the price-consumer contract keeps: the pull contract it asks to
/// verify proofs, its owner, and the latest verified price of each pair.
#[derive(Clone, Debug)]
pub struct State {
    pub supra_pull_contract: String,
    pub owner: String,
    pub price_data: HashMap<u32, OracleHolder>,
}

/// The entry kept for a pair once `data` has been verified for it.
pub open spec fn holder_of(data: PriceData) -> OracleHolder {
    OracleHolder { price: data.price, timestamp: data.timestamp, decimal: data.decimal, round: data.round }
}

/// The kept prices after verified prices are recorded one after another:
/// each entry replaces what was kept for its pair, so of several entries for
/// one pair the last one stays.
pub open spec fn with_prices(kept: Map<u32, OracleHolder>, data: Seq<PriceData>) -> Map<u32, OracleHolder>
    decreases data.len(),
{
    if data.len() == 0 {
        kept
    } else {
        with_prices(kept, data.drop_last()).insert(data.last().pair, holder_of(data.last()))
    }
}

impl State {
    /// The state of a newly set up contract: no prices yet.
    pub fn new(supra_pull_contract: String, owner: String) -> (r: State)
        ensures
            r.supra_pull_contract@ == supra_pull_contract@,
            r.owner@ == owner@,
            r.price_data@ == Map::<u32, OracleHolder>::empty(),
    {
        State { supra_pull_contract, owner, price_data: HashMap::new() }
    }

    /// Points the contract at another pull contract; nothing else changes.
    pub fn update_supra_contract(&mut self, supra_pull_contract: String)
        ensures
            final(self).supra_pull_contract@ == supra_pull_contract@,
            final(self).owner@ == old(self).owner@,
            final(self).price_data@ == old(self).price_data@,
    {
        self.supra_pull_contract = supra_pull_contract;
    }

    /// The address of the pull contract that is set now.
    pub fn query_supra_pull_contract(&self) -> (r: ContractResponse)
        ensures
            r.supra_pull_contract@ == self.supra_pull_contract@,
    {
        ContractResponse { supra_pull_contract: self.supra_pull_contract.clone() }
    }

    /// Records verified prices in the order given: the entry for each pair
    /// in `data` is replaced, every other entry stays.
    pub fn record_price_data(&mut self, data: &Vec<PriceData>)
        ensures
            final(self).price_data@ == with_prices(old(self).price_data@, data@),
            final(self).supra_pull_contract@ == old(self).supra_pull_contract@,
            final(self).owner@ == old(self).owner@,
    {
        let ghost kept = self.price_data@;
        let mut i: usize = 0;
        while i < data.len()
            invariant
                i <= data.len(),
                self.price_data@ == with_prices(kept, data@.take(i as int)),
                self.supra_pull_contract@ == old(self).supra_pull_contract@,
                self.owner@ == old(self).owner@,
            decreases data.len() - i,
        {
            let d = data[i];
            let holder = OracleHolder {
                price: d.price,
                timestamp: d.timestamp,
                decimal: d.decimal,
                round: d.round,
            };
            self.price_data.insert(d.pair, holder);
            assert(data@.take(i + 1).drop_last() =~= data@.take(i as int));
            i = i + 1;
        }
        assert(data@.take(data.len() as int) =~= data@);
    }

    /// The price kept for `pair_id`, which must have one.
    pub fn query_pair_data_internal(&self, pair_id: u32) -> (r: OracleHolder)
        requires
            self.price_data@.contains_key(pair_id),
        ensures
            r == self.price_data@[pair_id],
    {
        *self.price_data.get(&pair_id).unwrap()
    }
}

} // verus!
