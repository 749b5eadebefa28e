use vstd::prelude::*;

verus! {

/// A model of the process's environment: the variables that are set, each
/// with its value.
pub type EnvModel = Map<Seq<char>, Seq<char>>;

/// The value of `key` in `env`, or `None` where it is not set.
pub open spec fn lookup(env: EnvModel, key: Seq<char>) -> Option<Seq<char>> {
    if env.contains_key(key) {
        Some(env[key])
    } else {
        None
    }
}

/// A change to one environment variable, as a value of the model.
pub enum VarOp {
    SetVar(Seq<char>, Seq<char>),
    RemoveVar(Seq<char>),
}

/// The environment after `op` is carried out on `env`.
pub open spec fn apply(env: EnvModel, op: VarOp) -> EnvModel {
    match op {
        VarOp::SetVar(k, v) => env.insert(k, v),
        VarOp::RemoveVar(k) => env.remove(k),
    }
}

/// A change to one environment variable, for the caller to carry out.
#[derive(Clone, Debug, PartialEq, Eq)]
pub enum VarAction {
    /// Set `key` to `value`.
    SetVar { key: String, value: String },
    /// Remove `key`; nothing happens where it is not set.
    RemoveVar { key: String },
}

impl View for VarAction {
    type V = VarOp;

    open spec fn view(&self) -> VarOp {
        match self {
            VarAction::SetVar { key, value } => VarOp::SetVar(key@, value@),
            VarAction::RemoveVar { key } => VarOp::RemoveVar(key@),
        }
    }
}

/// What an environment guard records: the variable, the value it had before
/// the guard (or `None` where it was not set), and the value the guard set.
pub struct PushenvView {
    pub key: Seq<char>,
    pub prev_value: Option<Seq<char>>,
    pub value: Seq<char>,
}

/// The change that closing the guard `g` carries out: the prior value is put
/// back, or the variable is removed where it was not set before.
pub open spec fn restore_op(g: PushenvView) -> VarOp {
    match g.prev_value {
        Some(p) => VarOp::SetVar(g.key, p),
        None => VarOp::RemoveVar(g.key),
    }
}

/// The view of an optional string.
pub open spec fn opt_view(o: Option<String>) -> Option<Seq<char>> {
    match o {
        Some(s) => Some(s@),
        None => None,
    }
}

/// An environment guard that holds one variable set.
///
/// Created only while the process-wide lock is held; closing it (see
/// [`Pushenv::close`]) checks that the variable still has the value the guard
/// set and names the change that puts the prior state back.
pub struct Pushenv {
    key: String,
    prev_value: Option<String>,
    value: String,
}

impl View for Pushenv {
    type V = PushenvView;

    closed spec fn view(&self) -> PushenvView {
        PushenvView { key: self.key@, prev_value: opt_view(self.prev_value), value: self.value@ }
    }
}

/// The variable of an environment guard no longer holds the value the guard
/// set: something changed it while the guard was open. This is fatal.
#[derive(Clone, Debug, PartialEq, Eq)]
pub struct VarChanged {
    pub key: String,
    pub expected: String,
    pub got: Option<String>,
}

/// Opens an environment guard that sets `key` to `value`, once the lock is
/// held and the variable has been read (`prev_value`, `None` where it is not
/// set). The caller then carries out [`Pushenv::setting`].
pub fn pushenv(key: String, value: String, prev_value: Option<String>) -> (r: Pushenv)
    ensures
        r@ == (PushenvView { key: key@, prev_value: opt_view(prev_value), value: value@ }),
{
    Pushenv::new(key, value, prev_value)
}

impl Pushenv {
    /// A guard for `key` that records `prev_value` as the state to put back
    /// and `value` as the value it sets.
    pub fn new(key: String, value: String, prev_value: Option<String>) -> (r: Pushenv)
        ensures
            r@ == (PushenvView { key: key@, prev_value: opt_view(prev_value), value: value@ }),
    {
        Pushenv { key, prev_value, value }
    }

    /// The variable the guard holds.
    pub fn key(&self) -> (r: &String)
        ensures
            r@ == self@.key,
    {
        &self.key
    }

    /// The value the guard set.
    pub fn value(&self) -> (r: &String)
        ensures
            r@ == self@.value,
    {
        &self.value
    }

    /// The value the variable had before the guard, or `None` where it was
    /// not set.
    pub fn prev_value(&self) -> (r: &Option<String>)
        ensures
            opt_view(*r) == self@.prev_value,
    {
        &self.prev_value
    }

    /// The change that opening the guard carries out: `key` is set to `value`.
    pub fn setting(&self) -> (r: VarAction)
        ensures
            r@ == VarOp::SetVar(self@.key, self@.value),
    {
        VarAction::SetVar { key: self.key.clone(), value: self.value.clone() }
    }

    /// Decides the closing of the guard from the variable's value read at that
    /// moment (`current`). Where it is still the value the guard set, the
    /// result is the change that puts the prior state back; otherwise the
    /// violation found, which the caller must treat as fatal.
    pub fn close(&self, current: Option<String>) -> (r: Result<VarAction, VarChanged>)
        ensures
            opt_view(current) == Some(self@.value) ==> (r matches Ok(a) && a@ == restore_op(self@)),
            opt_view(current) != Some(self@.value) ==> (r matches Err(v) && v.key@ == self@.key
                && v.expected@ == self@.value && opt_view(v.got) == opt_view(current)),
    {
        let unchanged = match &current {
            Some(c) => *c == self.value,
            None => false,
        };
        if unchanged {
            match &self.prev_value {
                Some(p) => Ok(VarAction::SetVar { key: self.key.clone(), value: p.clone() }),
                None => Ok(VarAction::RemoveVar { key: self.key.clone() }),
            }
        } else {
            Err(VarChanged { key: self.key.clone(), expected: self.value.clone(), got: current })
        }
    }
}

/// An environment guard undoes exactly what it did. Opened on `env` for
/// `key` and `value`, it records what `key` held there; while it is open
/// `key` reads `value`; closed with nothing else touching the variable, it
/// finds its own value and its restoring change gives back `env` itself, every
/// other variable included (`key` is absent again where it was absent).
pub proof fn lemma_pushenv_round_trip(env: EnvModel, key: Seq<char>, value: Seq<char>)
    ensures
        ({
            let g = PushenvView { key, prev_value: lookup(env, key), value };
            let opened = apply(env, VarOp::SetVar(key, value));
            &&& lookup(opened, key) == Some(value)
            &&& apply(opened, restore_op(g)) == env
        }),
{
    let g = PushenvView { key, prev_value: lookup(env, key), value };
    let opened = apply(env, VarOp::SetVar(key, value));
    assert(apply(opened, restore_op(g)) =~= env);
}

/// A guard opened where its variable was not set removes the variable when it
/// is closed, so the variable is absent afterwards; the removal can be carried
/// out again without changing anything.
pub proof fn lemma_absent_stays_absent(env: EnvModel, g: PushenvView)
    requires
        g.prev_value is None,
    ensures
        restore_op(g) == VarOp::RemoveVar(g.key),
        lookup(apply(env, restore_op(g)), g.key) is None,
        apply(apply(env, restore_op(g)), restore_op(g)) == apply(env, restore_op(g)),
{
    assert(apply(apply(env, restore_op(g)), restore_op(g)) =~= apply(env, restore_op(g)));
}

} // verus!
