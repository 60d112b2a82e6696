//! The chained lexical-scope environment.
//!
//! An `Env` is a stack of scope frames, innermost last.  Lookups walk the
//! frames from the innermost outwards; stores write into the innermost frame
//! only, so a child scope never mutates what an outer scope holds.  Its
//! model is the `Seq<GFrame>` of the frames' maps, with a name stored twice
//! in one frame modelled by map insertion: the last write wins.
use vstd::prelude::*;
use vstd::string::StringExecFns;

use crate::ast::names_view;
use crate::ast::view_stmt;
use crate::func_def::clone_strings;
use crate::semantics::default_env;
use crate::semantics::empty_frame;
use crate::semantics::lookup_binding;
use crate::semantics::lookup_func;
use crate::semantics::msg_undefined_binding;
use crate::semantics::msg_undefined_func;
use crate::semantics::store_binding_env;
use crate::semantics::store_func_env;
use crate::semantics::GFrame;
use crate::semantics::GFun;
use crate::stmt::Stmt;
use crate::val::Val;

verus! {

broadcast use vstd::std_specs::vec::group_vec_axioms;

/// One stored binding: a name and its value.
#[derive(Debug)]
pub struct Binding {
    pub name: String,
    pub value: Val,
}

/// One stored function: its name, parameter names and body.
#[derive(Debug)]
pub struct FuncSlot {
    pub name: String,
    pub params: Vec<String>,
    pub body: Stmt,
}

/// One scope frame.
#[derive(Debug)]
pub struct Frame {
    pub bindings: Vec<Binding>,
    pub funcs: Vec<FuncSlot>,
}

/// A chain of scope frames: the outermost frame and the frames stacked
/// inside it, innermost last.
#[derive(Debug)]
pub struct Env {
    base: Frame,
    stack: Vec<Frame>,
}

/// The map held by a list of bindings; a later entry overwrites an earlier
/// one of the same name.
pub open spec fn bindings_map(s: Seq<Binding>) -> Map<Seq<char>, Val>
    decreases s.len(),
{
    if s.len() == 0 {
        Map::empty()
    } else {
        bindings_map(s.drop_last()).insert(s.last().name@, s.last().value)
    }
}

/// The model of one stored function.
pub open spec fn slot_fun(sl: FuncSlot) -> GFun {
    GFun { params: names_view(sl.params@), body: view_stmt(sl.body) }
}

/// The map held by a list of stored functions; a later entry overwrites an
/// earlier one of the same name.
pub open spec fn funcs_map(s: Seq<FuncSlot>) -> Map<Seq<char>, GFun>
    decreases s.len(),
{
    if s.len() == 0 {
        Map::empty()
    } else {
        funcs_map(s.drop_last()).insert(s.last().name@, slot_fun(s.last()))
    }
}

/// The model of one frame.
pub open spec fn frame_view(f: Frame) -> GFrame {
    GFrame { bindings: bindings_map(f.bindings@), funcs: funcs_map(f.funcs@) }
}

impl View for Env {
    type V = Seq<GFrame>;

    closed spec fn view(&self) -> Seq<GFrame> {
        seq![frame_view(self.base)] + self.stack@.map_values(|f: Frame| frame_view(f))
    }
}

/// Every environment holds at least its outermost frame, so the laws
/// stated over non-empty frame chains apply to any `Env`'s model.
pub broadcast proof fn lemma_env_nonempty(e: &Env)
    ensures
        (#[trigger] e@).len() >= 1,
{
}

/// Appending a binding inserts it into the map.
proof fn lemma_bindings_map_push(s: Seq<Binding>, b: Binding)
    ensures
        bindings_map(s.push(b)) == bindings_map(s).insert(b.name@, b.value),
{
    assert(s.push(b).drop_last() =~= s);
    assert(s.push(b).last() == b);
}

/// Appending a stored function inserts it into the map.
proof fn lemma_funcs_map_push(s: Seq<FuncSlot>, sl: FuncSlot)
    ensures
        funcs_map(s.push(sl)) == funcs_map(s).insert(sl.name@, slot_fun(sl)),
{
    assert(s.push(sl).drop_last() =~= s);
    assert(s.push(sl).last() == sl);
}

/// The last entry of a name, with none after it, is what the map holds.
proof fn lemma_bindings_map_found(s: Seq<Binding>, i: int, n: Seq<char>)
    requires
        0 <= i < s.len(),
        s[i].name@ == n,
        forall|k: int| i < k < s.len() ==> s[k].name@ != n,
    ensures
        bindings_map(s).contains_key(n),
        bindings_map(s)[n] == s[i].value,
    decreases s.len(),
{
    if i < s.len() - 1 {
        lemma_bindings_map_found(s.drop_last(), i, n);
    }
}

/// A name entered nowhere is absent from the map.
proof fn lemma_bindings_map_absent(s: Seq<Binding>, n: Seq<char>)
    requires
        forall|k: int| 0 <= k < s.len() ==> s[k].name@ != n,
    ensures
        !bindings_map(s).contains_key(n),
    decreases s.len(),
{
    if s.len() > 0 {
        lemma_bindings_map_absent(s.drop_last(), n);
    }
}

/// The last entry of a name, with none after it, is what the map holds.
proof fn lemma_funcs_map_found(s: Seq<FuncSlot>, i: int, n: Seq<char>)
    requires
        0 <= i < s.len(),
        s[i].name@ == n,
        forall|k: int| i < k < s.len() ==> s[k].name@ != n,
    ensures
        funcs_map(s).contains_key(n),
        funcs_map(s)[n] == slot_fun(s[i]),
    decreases s.len(),
{
    if i < s.len() - 1 {
        lemma_funcs_map_found(s.drop_last(), i, n);
    }
}

/// A name entered nowhere is absent from the map.
proof fn lemma_funcs_map_absent(s: Seq<FuncSlot>, n: Seq<char>)
    requires
        forall|k: int| 0 <= k < s.len() ==> s[k].name@ != n,
    ensures
        !funcs_map(s).contains_key(n),
    decreases s.len(),
{
    if s.len() > 0 {
        lemma_funcs_map_absent(s.drop_last(), n);
    }
}

/// Binding lists with the same names and values hold the same map.
proof fn lemma_bindings_map_congruent(s1: Seq<Binding>, s2: Seq<Binding>)
    requires
        s1.len() == s2.len(),
        forall|k: int|
            0 <= k < s1.len() ==> s1[k].name@ == s2[k].name@ && s1[k].value == s2[k].value,
    ensures
        bindings_map(s1) == bindings_map(s2),
    decreases s1.len(),
{
    if s1.len() > 0 {
        lemma_bindings_map_congruent(s1.drop_last(), s2.drop_last());
    }
}

/// Function lists with the same names and models hold the same map.
proof fn lemma_funcs_map_congruent(s1: Seq<FuncSlot>, s2: Seq<FuncSlot>)
    requires
        s1.len() == s2.len(),
        forall|k: int|
            0 <= k < s1.len() ==> s1[k].name@ == s2[k].name@ && slot_fun(s1[k]) == slot_fun(s2[k]),
    ensures
        funcs_map(s1) == funcs_map(s2),
    decreases s1.len(),
{
    if s1.len() > 0 {
        lemma_funcs_map_congruent(s1.drop_last(), s2.drop_last());
    }
}

/// A frame with nothing in it.
fn new_frame() -> (f: Frame)
    ensures
        frame_view(f) == empty_frame(),
{
    let f = Frame { bindings: Vec::new(), funcs: Vec::new() };
    proof {
        assert(frame_view(f).bindings =~= empty_frame().bindings);
        assert(frame_view(f).funcs =~= empty_frame().funcs);
    }
    f
}

/// A deep copy of a frame with the same model.
fn clone_frame(f: &Frame) -> (r: Frame)
    ensures
        frame_view(r) == frame_view(*f),
{
    let mut bindings: Vec<Binding> = Vec::new();
    let mut i: usize = 0;
    while i < f.bindings.len()
        invariant
            i <= f.bindings.len(),
            bindings@.len() == i,
            forall|k: int|
                0 <= k < i ==> bindings@[k].name@ == f.bindings@[k].name@ && bindings@[k].value
                    == f.bindings@[k].value,
        decreases f.bindings@.len() - i,
    {
        let b = &f.bindings[i];
        bindings.push(Binding { name: b.name.clone(), value: b.value });
        i = i + 1;
    }
    let mut funcs: Vec<FuncSlot> = Vec::new();
    let mut j: usize = 0;
    while j < f.funcs.len()
        invariant
            j <= f.funcs.len(),
            funcs@.len() == j,
            forall|k: int|
                0 <= k < j ==> funcs@[k].name@ == f.funcs@[k].name@ && slot_fun(funcs@[k])
                    == slot_fun(f.funcs@[k]),
        decreases f.funcs@.len() - j,
    {
        let sl = &f.funcs[j];
        funcs.push(
            FuncSlot { name: sl.name.clone(), params: clone_strings(&sl.params), body: sl.body.clone() },
        );
        j = j + 1;
    }
    let r = Frame { bindings, funcs };
    proof {
        lemma_bindings_map_congruent(r.bindings@, f.bindings@);
        lemma_funcs_map_congruent(r.funcs@, f.funcs@);
    }
    r
}

/// Searches one frame for a binding, latest entry first.
fn frame_get_binding(f: &Frame, name: &String) -> (r: Option<Val>)
    ensures
        match r {
            Some(v) => frame_view(*f).bindings.contains_key(name@) && frame_view(
                *f,
            ).bindings[name@] == v,
            None => !frame_view(*f).bindings.contains_key(name@),
        },
{
    let mut j = f.bindings.len();
    while j > 0
        invariant
            j <= f.bindings@.len(),
            forall|k: int| j <= k < f.bindings@.len() ==> f.bindings@[k].name@ != name@,
        decreases j,
    {
        let b = &f.bindings[j - 1];
        if b.name == *name {
            proof {
                lemma_bindings_map_found(f.bindings@, j - 1, name@);
            }
            return Some(b.value);
        }
        j = j - 1;
    }
    proof {
        lemma_bindings_map_absent(f.bindings@, name@);
    }
    None
}

/// Searches one frame for a stored function, latest entry first.
fn frame_get_func<'a>(f: &'a Frame, name: &String) -> (r: Option<&'a FuncSlot>)
    ensures
        match r {
            Some(sl) => frame_view(*f).funcs.contains_key(name@) && frame_view(*f).funcs[name@]
                == slot_fun(*sl),
            None => !frame_view(*f).funcs.contains_key(name@),
        },
{
    let mut j = f.funcs.len();
    while j > 0
        invariant
            j <= f.funcs@.len(),
            forall|k: int| j <= k < f.funcs@.len() ==> f.funcs@[k].name@ != name@,
        decreases j,
    {
        let sl = &f.funcs[j - 1];
        if sl.name == *name {
            proof {
                lemma_funcs_map_found(f.funcs@, j - 1, name@);
            }
            return Some(sl);
        }
        j = j - 1;
    }
    proof {
        lemma_funcs_map_absent(f.funcs@, name@);
    }
    None
}

impl Default for Env {
    /// A fresh environment: one empty scope frame.
    fn default() -> (e: Env)
        ensures
            e@ == default_env(),
    {
        let e = Env { base: new_frame(), stack: Vec::new() };
        proof {
            assert(e@ =~= default_env());
        }
        e
    }
}

impl Env {
    /// Stores a value under a name in the innermost frame, overwriting an
    /// earlier binding of that name there.
    pub fn store_binding(&mut self, name: String, value: Val)
        ensures
            final(self)@ == store_binding_env(old(self)@, name@, value),
    {
        let ghost old_env = self@;
        let ghost n = name@;
        if self.stack.len() == 0 {
            proof {
                lemma_bindings_map_push(self.base.bindings@, Binding { name, value });
            }
            self.base.bindings.push(Binding { name, value });
            proof {
                assert(self@ =~= store_binding_env(old_env, n, value));
            }
        } else {
            match self.stack.pop() {
                Some(mut f) => {
                    proof {
                        lemma_bindings_map_push(f.bindings@, Binding { name, value });
                    }
                    f.bindings.push(Binding { name, value });
                    self.stack.push(f);
                    proof {
                        assert(self@ =~= store_binding_env(old_env, n, value));
                    }
                },
                None => {
                    proof {
                        assert(false);
                    }
                },
            }
        }
    }

    /// Stores a function's parameter names and body under a name in the
    /// innermost frame, overwriting an earlier function of that name there.
    pub fn store_func(&mut self, name: String, params: Vec<String>, body: Stmt)
        ensures
            final(self)@ == store_func_env(
                old(self)@,
                name@,
                (GFun { params: names_view(params@), body: view_stmt(body) }),
            ),
    {
        let ghost old_env = self@;
        let ghost n = name@;
        let ghost g = GFun { params: names_view(params@), body: view_stmt(body) };
        if self.stack.len() == 0 {
            proof {
                lemma_funcs_map_push(self.base.funcs@, FuncSlot { name, params, body });
            }
            self.base.funcs.push(FuncSlot { name, params, body });
            proof {
                assert(self@ =~= store_func_env(old_env, n, g));
            }
        } else {
            match self.stack.pop() {
                Some(mut f) => {
                    proof {
                        lemma_funcs_map_push(f.funcs@, FuncSlot { name, params, body });
                    }
                    f.funcs.push(FuncSlot { name, params, body });
                    self.stack.push(f);
                    proof {
                        assert(self@ =~= store_func_env(old_env, n, g));
                    }
                },
                None => {
                    proof {
                        assert(false);
                    }
                },
            }
        }
    }

    /// Looks a name up as a binding, innermost frame first.  Fails when no
    /// frame in the chain binds the name.
    #[verifier::rlimit(50)]
    pub fn get_binding(&self, name: &String) -> (r: Result<Val, String>)
        ensures
            match lookup_binding(self@, name@) {
                Some(v) => r matches Ok(rv) && rv == v,
                None => r matches Err(e) && e@ == msg_undefined_binding(name@),
            },
    {
        let mut i = self.stack.len();
        proof {
            assert(self@.take(i + 1 as int) =~= self@);
        }
        while i > 0
            invariant
                i <= self.stack@.len(),
                lookup_binding(self@, name@) == lookup_binding(self@.take(i + 1 as int), name@),
            decreases i,
        {
            let fr = &self.stack[i - 1];
            proof {
                assert(self@.take(i + 1 as int).last() == frame_view(*fr));
            }
            match frame_get_binding(fr, name) {
                Some(v) => {
                    return Ok(v);
                },
                None => {
                    proof {
                        assert(self@.take(i + 1 as int).drop_last() =~= self@.take(i as int));
                    }
                    i = i - 1;
                },
            }
        }
        proof {
            assert(self@.take(1).last() == frame_view(self.base));
        }
        match frame_get_binding(&self.base, name) {
            Some(v) => {
                proof {
                    assert(lookup_binding(self@.take(1), name@) == Some(v));
                }
                Ok(v)
            },
            None => {
                proof {
                    assert(self@.take(1).drop_last() =~= Seq::<GFrame>::empty());
                    assert(lookup_binding(Seq::<GFrame>::empty(), name@) is None);
                    assert(lookup_binding(self@.take(1), name@) is None);
                }
                let mut m = String::from_str("binding with name '");
                m.append(name.as_str());
                m.append("' does not exist");
                Err(m)
            },
        }
    }

    /// Looks a name up as a function, innermost frame first, returning the
    /// stored parameter names and body.  Fails when no frame in the chain
    /// stores a function of the name.
    #[verifier::rlimit(50)]
    pub fn get_func<'a>(&'a self, name: &String) -> (r: Result<(&'a Vec<String>, &'a Stmt), String>)
        ensures
            match lookup_func(self@, name@) {
                Some(f) => r matches Ok(t) && names_view(t.0@) == f.params && view_stmt(*t.1)
                    == f.body,
                None => r matches Err(e) && e@ == msg_undefined_func(name@),
            },
    {
        let mut i = self.stack.len();
        proof {
            assert(self@.take(i + 1 as int) =~= self@);
        }
        while i > 0
            invariant
                i <= self.stack@.len(),
                lookup_func(self@, name@) == lookup_func(self@.take(i + 1 as int), name@),
            decreases i,
        {
            let fr = &self.stack[i - 1];
            proof {
                assert(self@.take(i + 1 as int).last() == frame_view(*fr));
            }
            match frame_get_func(fr, name) {
                Some(sl) => {
                    return Ok((&sl.params, &sl.body));
                },
                None => {
                    proof {
                        assert(self@.take(i + 1 as int).drop_last() =~= self@.take(i as int));
                    }
                    i = i - 1;
                },
            }
        }
        proof {
            assert(self@.take(1).last() == frame_view(self.base));
        }
        match frame_get_func(&self.base, name) {
            Some(sl) => {
                proof {
                    assert(lookup_func(self@.take(1), name@) == Some(slot_fun(*sl)));
                }
                Ok((&sl.params, &sl.body))
            },
            None => {
                proof {
                    assert(self@.take(1).drop_last() =~= Seq::<GFrame>::empty());
                    assert(lookup_func(Seq::<GFrame>::empty(), name@) is None);
                    assert(lookup_func(self@.take(1), name@) is None);
                }
                let mut m = String::from_str("function with name '");
                m.append(name.as_str());
                m.append("' does not exist.");
                Err(m)
            },
        }
    }

    /// A new environment whose frames are those of this one with one empty
    /// frame stacked inside: the scope a block or a call evaluates in.  The
    /// copy shares nothing with the original, so nothing done in the child
    /// can reach the parent.
    pub fn create_child(&self) -> (r: Env)
        ensures
            r@ == self@.push(empty_frame()),
    {
        let mut stack2: Vec<Frame> = Vec::new();
        let mut i: usize = 0;
        while i < self.stack.len()
            invariant
                i <= self.stack@.len(),
                stack2@.len() == i,
                forall|k: int| 0 <= k < i ==> frame_view(stack2@[k]) == frame_view(self.stack@[k]),
            decreases self.stack@.len() - i,
        {
            let fr = &self.stack[i];
            stack2.push(clone_frame(fr));
            i = i + 1;
        }
        stack2.push(new_frame());
        let r = Env { base: clone_frame(&self.base), stack: stack2 };
        proof {
            assert(r@ =~= self@.push(empty_frame()));
        }
        r
    }
}

} // verus!
