//! The process environment as this subsystem sees it: a string-keyed map
//! written once at startup, before the embedded engine initializes and
//! reads it.
//!
//! [`ProcessEnvironment`] records every write and is viewed as the map the
//! writes produce, with append/overwrite semantics: later writers win.
//! [`apply_process_environment`] writes a whole matrix row into it;
//! [`lemma_apply_all_idempotent`] is the law that applying a row twice
//! leaves the same environment as applying it once.

use vstd::prelude::*;
use crate::matrix::{env_models, EnvironmentSetting, EnvironmentSettingModel};

verus! {

/// The environment that results from writing each setting of `s`, in
/// order, into the environment `m`: a later write to the same name wins.
pub open spec fn spec_apply_all(
    m: Map<Seq<char>, Seq<char>>,
    s: Seq<EnvironmentSettingModel>,
) -> Map<Seq<char>, Seq<char>>
    decreases s.len(),
{
    if s.len() == 0 {
        m
    } else {
        spec_apply_all(m, s.drop_last()).insert(s.last().name, s.last().value)
    }
}

/// Whether some setting in `s` writes the name `k`.
pub open spec fn writes_name(s: Seq<EnvironmentSettingModel>, k: Seq<char>) -> bool {
    exists|i: int| 0 <= i < s.len() && s[i].name == k
}

/// The value the last write of the name `k` in `s` carries.
pub open spec fn last_value(s: Seq<EnvironmentSettingModel>, k: Seq<char>) -> Seq<char>
    recommends
        writes_name(s, k),
    decreases s.len(),
{
    if s.len() == 0 {
        Seq::empty()
    } else if s.last().name == k {
        s.last().value
    } else {
        last_value(s.drop_last(), k)
    }
}

/// What `spec_apply_all` does to any one name: a name some setting writes
/// ends at the value of its last write; every other name keeps its
/// presence and value from the prior environment.
pub proof fn lemma_apply_all_at_name(
    m: Map<Seq<char>, Seq<char>>,
    s: Seq<EnvironmentSettingModel>,
    k: Seq<char>,
)
    ensures
        spec_apply_all(m, s).contains_key(k) <==> (m.contains_key(k) || writes_name(s, k)),
        writes_name(s, k) ==> spec_apply_all(m, s)[k] == last_value(s, k),
        !writes_name(s, k) && m.contains_key(k) ==> spec_apply_all(m, s)[k] == m[k],
    decreases s.len(),
{
    if s.len() == 0 {
        assert(!writes_name(s, k));
    } else {
        let s0 = s.drop_last();
        lemma_apply_all_at_name(m, s0, k);
        if s.last().name == k {
            assert(writes_name(s, k)) by {
                assert(s[s.len() - 1].name == k);
            }
        } else {
            assert(writes_name(s0, k) <==> writes_name(s, k)) by {
                if writes_name(s0, k) {
                    let i = choose|i: int| 0 <= i < s0.len() && s0[i].name == k;
                    assert(s[i].name == k);
                }
                if writes_name(s, k) {
                    let i = choose|i: int| 0 <= i < s.len() && s[i].name == k;
                    assert(i < s.len() - 1);
                    assert(s0[i].name == k);
                }
            }
        }
    }
}

/// Law: environment configuration is idempotent. Writing the same sequence
/// of settings a second time leaves exactly the environment the first pass
/// produced.
pub proof fn lemma_apply_all_idempotent(
    m: Map<Seq<char>, Seq<char>>,
    s: Seq<EnvironmentSettingModel>,
)
    ensures
        spec_apply_all(spec_apply_all(m, s), s) == spec_apply_all(m, s),
{
    let m1 = spec_apply_all(m, s);
    let m2 = spec_apply_all(m1, s);
    assert forall|k: Seq<char>| #[trigger] m2.contains_key(k) <==> m1.contains_key(k) by {
        lemma_apply_all_at_name(m, s, k);
        lemma_apply_all_at_name(m1, s, k);
    }
    assert forall|k: Seq<char>| m1.contains_key(k) implies #[trigger] m2[k] == m1[k] by {
        lemma_apply_all_at_name(m, s, k);
        lemma_apply_all_at_name(m1, s, k);
    }
    assert(m2 =~= m1);
}

/// The process-wide environment: a record of every variable write made
/// through it, viewed as the string-keyed map those writes produce.
///
/// The shell around this crate mirrors each write into the real process
/// environment before any engine initializes; this type is the state the
/// contracts speak about.
pub struct ProcessEnvironment {
    writes: Vec<EnvironmentSetting>,
}

impl View for ProcessEnvironment {
    type V = Map<Seq<char>, Seq<char>>;

    closed spec fn view(&self) -> Map<Seq<char>, Seq<char>> {
        spec_apply_all(Map::empty(), env_models(self.writes@))
    }
}

impl ProcessEnvironment {
    /// An environment with no variable set.
    pub fn new() -> (r: ProcessEnvironment)
        ensures
            r@ == Map::<Seq<char>, Seq<char>>::empty(),
    {
        ProcessEnvironment { writes: Vec::new() }
    }

    /// Writes one variable: the name now holds exactly this value,
    /// whatever it held before, and no other name changes.
    pub fn set_var(&mut self, name: String, value: String)
        ensures
            final(self)@ == old(self)@.insert(name@, value@),
    {
        let ghost before = env_models(self.writes@);
        let ghost entry = EnvironmentSettingModel { name: name@, value: value@ };
        self.writes.push(EnvironmentSetting { name, value });
        proof {
            let after = env_models(self.writes@);
            assert(after.drop_last() =~= before);
            assert(after.last() == entry);
        }
    }

    /// Reads one variable: the value of the last write to this name, or
    /// `None` where nothing ever wrote it.
    pub fn get_var(&self, name: &String) -> (r: Option<&String>)
        ensures
            match r {
                Some(v) => self@.contains_key(name@) && v@ == self@[name@],
                None => !self@.contains_key(name@),
            },
    {
        let ghost models = env_models(self.writes@);
        let mut i: usize = self.writes.len();
        while i > 0
            invariant
                i <= self.writes.len(),
                models == env_models(self.writes@),
                forall|j: int| i <= j < self.writes.len() ==> models[j].name != name@,
            decreases i,
        {
            i = i - 1;
            if self.writes[i].name == *name {
                proof {
                    lemma_last_write_from(models, name@, i as int);
                    lemma_apply_all_at_name(Map::empty(), models, name@);
                }
                return Some(&self.writes[i].value);
            }
        }
        proof {
            assert(!writes_name(models, name@));
            lemma_apply_all_at_name(Map::empty(), models, name@);
        }
        None
    }
}

/// Where position `i` writes the name `k` and no later position does, the
/// last write of `k` in `s` is the one at `i`.
proof fn lemma_last_write_from(s: Seq<EnvironmentSettingModel>, k: Seq<char>, i: int)
    requires
        0 <= i < s.len(),
        s[i].name == k,
        forall|j: int| i < j < s.len() ==> s[j].name != k,
    ensures
        writes_name(s, k),
        last_value(s, k) == s[i].value,
    decreases s.len(),
{
    if i == s.len() - 1 {
    } else {
        let s0 = s.drop_last();
        lemma_last_write_from(s0, k, i);
    }
}

/// Writes every setting of a matrix row into the environment, in order.
/// The shell calls this once at startup, before the engine initializes.
pub fn apply_process_environment(env: &mut ProcessEnvironment, settings: &Vec<EnvironmentSetting>)
    ensures
        final(env)@ == spec_apply_all(old(env)@, env_models(settings@)),
{
    let ghost models = env_models(settings@);
    let ghost start = old(env)@;
    let mut i: usize = 0;
    while i < settings.len()
        invariant
            i <= settings.len(),
            models == env_models(settings@),
            env@ == spec_apply_all(start, models.take(i as int)),
        decreases settings.len() - i,
    {
        let name = settings[i].name.clone();
        let value = settings[i].value.clone();
        env.set_var(name, value);
        proof {
            assert(models[i as int] == settings@[i as int]@);
            assert(models.take(i + 1).drop_last() =~= models.take(i as int));
            assert(models.take(i + 1).last() == models[i as int]);
        }
        i = i + 1;
    }
    proof {
        assert(models.take(settings@.len() as int) =~= models);
    }
}

} // verus!
