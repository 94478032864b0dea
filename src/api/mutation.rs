use vstd::prelude::*;
use vstd::string::StrSliceExecFns;
use vstd::utf8::encode_utf8;

verus! {

/// A set of changes: JSON or N-Quad payloads to set and to delete, and an
/// optional condition the server checks before applying them.
#[derive(Debug)]
pub struct Mutation {
    pub set_json: Vec<u8>,
    pub delete_json: Vec<u8>,
    pub set_nquads: Vec<u8>,
    pub del_nquads: Vec<u8>,
    pub cond: String,
    pub commit_now: bool,
}

/// The mathematical value of a [`Mutation`].
pub struct MutationView {
    pub set_json: Seq<u8>,
    pub delete_json: Seq<u8>,
    pub set_nquads: Seq<u8>,
    pub del_nquads: Seq<u8>,
    pub cond: Seq<char>,
    pub commit_now: bool,
}

impl View for Mutation {
    type V = MutationView;

    open spec fn view(&self) -> MutationView {
        MutationView {
            set_json: self.set_json@,
            delete_json: self.delete_json@,
            set_nquads: self.set_nquads@,
            del_nquads: self.del_nquads@,
            cond: self.cond@,
            commit_now: self.commit_now,
        }
    }
}

/// A mutation with nothing in it.
pub open spec fn empty_mutation() -> MutationView {
    MutationView {
        set_json: Seq::empty(),
        delete_json: Seq::empty(),
        set_nquads: Seq::empty(),
        del_nquads: Seq::empty(),
        cond: Seq::empty(),
        commit_now: false,
    }
}

impl Mutation {
    /// An empty mutation.
    pub fn new() -> (r: Mutation)
        ensures
            r@ == empty_mutation(),
    {
        Mutation {
            set_json: Vec::new(),
            delete_json: Vec::new(),
            set_nquads: Vec::new(),
            del_nquads: Vec::new(),
            cond: String::new(),
            commit_now: false,
        }
    }

    /// Sets the JSON document, already encoded, whose data the mutation adds.
    pub fn set_set_json(&mut self, json: Vec<u8>)
        ensures
            final(self)@ == (MutationView { set_json: json@, ..old(self)@ }),
    {
        self.set_json = json;
    }

    /// Sets the JSON document, already encoded, whose data the mutation
    /// deletes.
    pub fn set_delete_json(&mut self, json: Vec<u8>)
        ensures
            final(self)@ == (MutationView { delete_json: json@, ..old(self)@ }),
    {
        self.delete_json = json;
    }

    /// Sets the N-Quads the mutation adds.
    pub fn set_set_nquads(&mut self, nquads: String)
        ensures
            final(self)@ == (MutationView { set_nquads: encode_utf8(nquads@), ..old(self)@ }),
    {
        self.set_nquads = nquads.as_str().as_bytes_vec();
    }

    /// Sets the N-Quads the mutation deletes.
    pub fn set_delete_nquads(&mut self, nquads: String)
        ensures
            final(self)@ == (MutationView { del_nquads: encode_utf8(nquads@), ..old(self)@ }),
    {
        self.del_nquads = nquads.as_str().as_bytes_vec();
    }

    /// Sets the condition under which the server applies the mutation.
    pub fn set_cond(&mut self, cond: String)
        ensures
            final(self)@ == (MutationView { cond: cond@, ..old(self)@ }),
    {
        self.cond = cond;
    }

    /// This mutation with `json` as the encoded document to add.
    pub fn with_set_json(self, json: Vec<u8>) -> (r: Mutation)
        ensures
            r@ == (MutationView { set_json: json@, ..self@ }),
    {
        let mut mu = self;
        mu.set_set_json(json);
        mu
    }

    /// This mutation with `json` as the encoded document to delete.
    pub fn with_delete_json(self, json: Vec<u8>) -> (r: Mutation)
        ensures
            r@ == (MutationView { delete_json: json@, ..self@ }),
    {
        let mut mu = self;
        mu.set_delete_json(json);
        mu
    }
}

/// One or more mutations applied together by an upsert.
#[derive(Debug)]
pub struct UpsertMutation {
    pub mu: Vec<Mutation>,
}

impl From<Vec<Mutation>> for UpsertMutation {
    fn from(mu: Vec<Mutation>) -> (r: UpsertMutation) {
        UpsertMutation { mu }
    }
}

impl vstd::std_specs::convert::FromSpecImpl<Vec<Mutation>> for UpsertMutation {
    open spec fn obeys_from_spec() -> bool {
        true
    }

    open spec fn from_spec(mu: Vec<Mutation>) -> UpsertMutation {
        UpsertMutation { mu }
    }
}

impl UpsertMutation {
    /// An upsert of the one mutation `mu`.
    pub fn single(mu: Mutation) -> (r: UpsertMutation)
        ensures
            r.mu@ == seq![mu],
    {
        let r = UpsertMutation { mu: vec![mu] };
        assert(r.mu@ =~= seq![mu]);
        r
    }
}

} // verus!
