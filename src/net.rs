use vstd::prelude::*;
use vstd::string::*;

use crate::error::NcnnError;
use crate::mat::{Mat, MatShape};

verus! {

/// Whether `s` holds a NUL character.
pub open spec fn has_nul(s: Seq<char>) -> bool {
    exists|i: int| 0 <= i < s.len() && s[i] == '\0'
}

/// Checks that `text` can be handed to the native side as a C string.
pub fn check_native_text(text: &str) -> (r: Result<(), NcnnError>)
    ensures
        r is Ok <==> !has_nul(text@),
        r matches Err(e) ==> (e matches NcnnError::EmbeddedNul { text: t } && t@ == text@),
{
    let n = text.unicode_len();
    let mut i: usize = 0;
    while i < n
        invariant
            n == text@.len(),
            i <= n,
            forall|j: int| 0 <= j < i ==> text@[j] != '\0',
        decreases n - i,
    {
        if text.get_char(i) == '\0' {
            return Err(NcnnError::EmbeddedNul { text: text.to_owned() });
        }
        i = i + 1;
    }
    Ok(())
}

/// What has been loaded into a network.
#[derive(Debug, Clone, Copy, PartialEq, Eq, Structural)]
pub struct NetState {
    pub param_loaded: bool,
    pub model_loaded: bool,
}

impl NetState {
    /// Weights are only ever loaded on top of a topology.
    pub open spec fn wf(&self) -> bool {
        self.model_loaded ==> self.param_loaded
    }
}

/// Loading state of a native network. Topology comes first; weights are
/// only ever counted as loaded on top of the topology they were loaded for.
#[derive(Debug)]
pub struct Net {
    state: NetState,
}

impl View for Net {
    type V = NetState;

    closed spec fn view(&self) -> NetState {
        self.state
    }
}

impl Net {
    #[verifier::type_invariant]
    spec fn inv(&self) -> bool {
        self.state.wf()
    }

    /// An empty network: nothing loaded.
    pub fn new() -> (r: Net)
        ensures
            r@ == (NetState { param_loaded: false, model_loaded: false }),
    {
        Net { state: NetState { param_loaded: false, model_loaded: false } }
    }

    /// What has been loaded so far.
    pub fn state(&self) -> (r: NetState)
        ensures
            r == self@,
            r.wf(),
    {
        proof {
            use_type_invariant(self);
        }
        self.state
    }

    /// Records the outcome of loading a topology from `path`, where `status`
    /// is the native loader's status (0 on success). A failed load leaves
    /// neither topology nor weights loaded; a successful one loads the
    /// topology with no weights yet.
    pub fn load_param(&mut self, path: &str, status: i32) -> (r: Result<(), NcnnError>)
        ensures
            final(self)@.wf(),
            has_nul(path@) ==> *final(self) == *old(self) && (r matches Err(
                NcnnError::EmbeddedNul { text },
            ) && text@ == path@),
            !has_nul(path@) && status != 0 ==> final(self)@ == (NetState {
                param_loaded: false,
                model_loaded: false,
            }) && (r matches Err(NcnnError::LoadParam { path: p }) && p@ == path@),
            !has_nul(path@) && status == 0 ==> final(self)@ == (NetState {
                param_loaded: true,
                model_loaded: false,
            }) && r is Ok,
    {
        proof {
            use_type_invariant(&*self);
        }
        check_native_text(path)?;
        if status != 0 {
            self.state = NetState { param_loaded: false, model_loaded: false };
            Err(NcnnError::LoadParam { path: path.to_owned() })
        } else {
            self.state = NetState { param_loaded: true, model_loaded: false };
            Ok(())
        }
    }

    /// Records the outcome of loading weights from `path`. With no topology
    /// loaded this fails whatever the native loader reported; otherwise the
    /// weights count as loaded exactly when it reported success. The topology
    /// is left as it was.
    pub fn load_model(&mut self, path: &str, status: i32) -> (r: Result<(), NcnnError>)
        ensures
            final(self)@.wf(),
            has_nul(path@) ==> *final(self) == *old(self) && (r matches Err(
                NcnnError::EmbeddedNul { text },
            ) && text@ == path@),
            !has_nul(path@) ==> final(self)@ == (NetState {
                param_loaded: old(self)@.param_loaded,
                model_loaded: old(self)@.param_loaded && status == 0,
            }),
            r is Ok <==> !has_nul(path@) && old(self)@.param_loaded && status == 0,
            !has_nul(path@) && !(old(self)@.param_loaded && status == 0) ==> (r matches Err(
                NcnnError::LoadModel { path: p },
            ) && p@ == path@),
    {
        proof {
            use_type_invariant(&*self);
        }
        check_native_text(path)?;
        if !self.state.param_loaded || status != 0 {
            self.state = NetState { param_loaded: self.state.param_loaded, model_loaded: false };
            Err(NcnnError::LoadModel { path: path.to_owned() })
        } else {
            self.state = NetState { param_loaded: true, model_loaded: true };
            Ok(())
        }
    }

    /// Records the outcome of loading weights through a data reader, by the
    /// same rule as loading them from a path.
    pub fn load_model_datareader(&mut self, status: i32) -> (r: Result<(), NcnnError>)
        ensures
            final(self)@.wf(),
            final(self)@ == (NetState {
                param_loaded: old(self)@.param_loaded,
                model_loaded: old(self)@.param_loaded && status == 0,
            }),
            !(old(self)@.param_loaded && status == 0) <==> r == Err::<(), NcnnError>(
                NcnnError::LoadReader,
            ),
            r is Ok <==> old(self)@.param_loaded && status == 0,
    {
        if !self.state.param_loaded || status != 0 {
            self.state = NetState { param_loaded: self.state.param_loaded, model_loaded: false };
            Err(NcnnError::LoadReader)
        } else {
            self.state = NetState { param_loaded: true, model_loaded: true };
            Ok(())
        }
    }

    /// A new extraction session, which cannot outlive this network. Several
    /// sessions may share one network.
    pub fn create_extractor(&self) -> (r: Extractor<'_>)
        ensures
            r.network() == self@,
            r.bindings() == Map::<Seq<char>, MatShape>::empty(),
    {
        Extractor::from_net(self)
    }
}

/// Name-to-matrix map of a sequence of bindings, later ones overriding
/// earlier ones under the same name.
pub open spec fn bindings_of(s: Seq<(Seq<char>, MatShape)>) -> Map<Seq<char>, MatShape>
    decreases s.len(),
{
    if s.len() == 0 {
        Map::empty()
    } else {
        bindings_of(s.drop_last()).insert(s.last().0, s.last().1)
    }
}

proof fn lemma_bindings_prefix(s: Seq<(Seq<char>, MatShape)>, i: int, k: Seq<char>)
    requires
        0 <= i <= s.len(),
        forall|j: int| i <= j < s.len() ==> s[j].0 != k,
    ensures
        bindings_of(s).contains_key(k) == bindings_of(s.take(i)).contains_key(k),
        bindings_of(s).contains_key(k) ==> bindings_of(s)[k] == bindings_of(s.take(i))[k],
    decreases s.len(),
{
    if i == s.len() {
        assert(s.take(i) =~= s);
    } else {
        lemma_bindings_prefix(s.drop_last(), i, k);
        assert(s.drop_last().take(i) =~= s.take(i));
    }
}

/// An extraction session over a network. Input matrices are borrowed for the
/// session's whole life; outputs go into matrices the caller owns.
pub struct Extractor<'a> {
    net: &'a Net,
    inputs: Vec<(String, &'a Mat)>,
}

impl<'a> Extractor<'a> {
    /// The loading state of the network this session runs on.
    pub closed spec fn network(&self) -> NetState {
        self.net@
    }

    /// The bindings made so far, in order.
    pub closed spec fn entries(&self) -> Seq<(Seq<char>, MatShape)> {
        self.inputs@.map_values(|p: (String, &'a Mat)| (p.0@, p.1@))
    }

    /// The inputs bound so far, by name.
    pub closed spec fn bindings(&self) -> Map<Seq<char>, MatShape> {
        bindings_of(self.entries())
    }

    fn from_net(net: &'a Net) -> (r: Self)
        ensures
            r.network() == net@,
            r.bindings() == Map::<Seq<char>, MatShape>::empty(),
    {
        let r = Extractor { net, inputs: Vec::new() };
        assert(r.entries().len() == 0);
        r
    }

    /// The shape of the matrix bound under `name`, if any.
    pub fn binding(&self, name: &str) -> (r: Option<MatShape>)
        ensures
            r is Some <==> self.bindings().contains_key(name@),
            r matches Some(shape) ==> shape == self.bindings()[name@],
    {
        let ghost s = self.entries();
        let key = name.to_owned();
        let mut i: usize = self.inputs.len();
        while i > 0
            invariant
                s == self.entries(),
                key@ == name@,
                i <= self.inputs@.len(),
                forall|j: int| i <= j < s.len() ==> s[j].0 != name@,
            decreases i,
        {
            let entry = &self.inputs[i - 1];
            if entry.0 == key {
                proof {
                    assert(s[i - 1] == (entry.0@, entry.1@));
                    lemma_bindings_prefix(s, i as int, name@);
                    assert(s.take(i as int).drop_last() =~= s.take(i - 1));
                    assert(bindings_of(s.take(i as int)) == bindings_of(s.take(i - 1)).insert(
                        name@,
                        s[i - 1].1,
                    ));
                    assert(self.bindings() == bindings_of(s));
                }
                return Some(entry.1.shape());
            }
            i = i - 1;
        }
        proof {
            assert(self.bindings() == bindings_of(s));
            lemma_bindings_prefix(s, 0, name@);
            assert(s.take(0) =~= Seq::<(Seq<char>, MatShape)>::empty());
        }
        None
    }

    /// Records the outcome of binding `mat` under `name`, where `status` is
    /// the native status (0 on success). A success binds the name, replacing
    /// any earlier binding of it; a failure leaves every binding as it was.
    pub fn input(&mut self, name: &str, mat: &'a Mat, status: i32) -> (r: Result<(), NcnnError>)
        ensures
            final(self).network() == old(self).network(),
            has_nul(name@) ==> (r matches Err(NcnnError::EmbeddedNul { text }) && text@ == name@),
            !has_nul(name@) && status != 0 ==> (r matches Err(NcnnError::Bind { name: n }) && n@
                == name@),
            !has_nul(name@) && status == 0 <==> r is Ok,
            r is Ok ==> final(self).bindings() == old(self).bindings().insert(name@, mat@),
            r is Err ==> final(self).bindings() == old(self).bindings(),
    {
        check_native_text(name)?;
        if status != 0 {
            return Err(NcnnError::Bind { name: name.to_owned() });
        }
        let ghost before = self.entries();
        self.inputs.push((name.to_owned(), mat));
        proof {
            assert(self.entries().drop_last() =~= before);
        }
        Ok(())
    }

    /// Records the outcome of extracting the output `name` into `out`, where
    /// `status` is the native status and `result` the shape the native side
    /// wrote. Ends the session either way; `out` changes only on success.
    pub fn extract(self, name: &str, out: &mut Mat, result: MatShape, status: i32) -> (r: Result<
        (),
        NcnnError,
    >)
        ensures
            has_nul(name@) ==> (r matches Err(NcnnError::EmbeddedNul { text }) && text@ == name@),
            !has_nul(name@) && status != 0 ==> (r matches Err(NcnnError::Extract { name: n }) && n@
                == name@),
            !has_nul(name@) && status == 0 <==> r is Ok,
            r is Ok ==> final(out)@ == result,
            r is Err ==> final(out)@ == old(out)@,
    {
        check_native_text(name)?;
        if status != 0 {
            return Err(NcnnError::Extract { name: name.to_owned() });
        }
        *out = Mat::from_native(result);
        Ok(())
    }
}

} // verus!
