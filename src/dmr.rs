use vstd::prelude::*;

verus! {

/// One entry of the DMR radio-ID directory.
pub struct DmrRecord {
    pub fname: String,
    pub surname: String,
    pub city: String,
    pub country: String,
    pub id: usize,
    pub state: String,
}

/// A DMR record as values.
pub struct DmrView {
    pub fname: Seq<char>,
    pub surname: Seq<char>,
    pub city: Seq<char>,
    pub country: Seq<char>,
    pub id: nat,
    pub state: Seq<char>,
}

impl View for DmrRecord {
    type V = DmrView;

    open spec fn view(&self) -> DmrView {
        DmrView {
            fname: self.fname@,
            surname: self.surname@,
            city: self.city@,
            country: self.country@,
            id: self.id as nat,
            state: self.state@,
        }
    }
}

/// The record that stands for "no DMR entry": empty texts and id zero.
pub open spec fn empty_dmr() -> DmrView {
    DmrView {
        fname: Seq::empty(),
        surname: Seq::empty(),
        city: Seq::empty(),
        country: Seq::empty(),
        id: 0,
        state: Seq::empty(),
    }
}

impl Default for DmrRecord {
    fn default() -> (r: Self)
        ensures
            r@ == empty_dmr(),
    {
        DmrRecord {
            fname: String::new(),
            surname: String::new(),
            city: String::new(),
            country: String::new(),
            id: 0,
            state: String::new(),
        }
    }
}

/// The record kept from a directory answer: its first entry, if any.
pub open spec fn first_entry(results: Seq<DmrRecord>) -> Option<DmrView> {
    if results.len() > 0 {
        Some(results[0]@)
    } else {
        None
    }
}

/// Keeps the first entry of a directory answer; `None` where it has none.
pub fn first_result(results: Vec<DmrRecord>) -> (r: Option<DmrRecord>)
    ensures
        match r {
            Some(d) => first_entry(results@) == Some(d@),
            None => first_entry(results@) is None,
        },
{
    let mut results = results;
    if results.len() == 0 {
        None
    } else {
        Some(results.remove(0))
    }
}

} // verus!
