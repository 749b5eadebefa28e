use vstd::prelude::*;

verus! {

/// What a directory guard records: the working directory before it was
/// opened, and the one it set (as the system reported it after the change).
pub struct PushdView {
    pub prev_dir: Seq<char>,
    pub dir: Seq<char>,
}

/// Where a guard whose record is `g` sends the working directory back, when
/// it is closed while the working directory reads `current`; `None` where the
/// directory was changed behind the guard's back.
pub open spec fn restore_target(g: PushdView, current: Seq<char>) -> Option<Seq<char>> {
    if current == g.dir {
        Some(g.prev_dir)
    } else {
        None
    }
}

/// A directory guard that holds the working directory changed.
///
/// Created only while the process-wide lock is held; closing it (see
/// [`Pushd::close`]) checks that the directory is still the one it set and
/// names the directory to go back to.
pub struct Pushd {
    prev_dir: String,
    dir: String,
}

impl View for Pushd {
    type V = PushdView;

    closed spec fn view(&self) -> PushdView {
        PushdView { prev_dir: self.prev_dir@, dir: self.dir@ }
    }
}

/// A directory guard half opened: the working directory before the change is
/// known, and the caller is to change it to [`DirChange::target`].
pub struct DirChange {
    prev_dir: String,
    target: String,
}

/// A directory guard whose change went through: the caller is to read the
/// working directory again, to learn the form the system gave it.
pub struct DirChanged {
    prev_dir: String,
}

/// A broken promise found when a directory guard is closed. Either one is
/// fatal: the process cannot go on in a directory it does not know.
#[derive(Clone, Debug, PartialEq, Eq)]
pub enum DirViolation<E> {
    /// The working directory could not be read.
    Unreadable(E),
    /// The working directory is not the one the guard set: something changed
    /// it while the guard was open.
    Changed { expected: String, got: String },
}

/// Starts opening a directory guard for `dir`, once the lock is held and the
/// working directory has been read (`prior`). A failed read ends the opening
/// with its error, before anything has been changed.
pub fn pushd<E>(dir: String, prior: Result<String, E>) -> (r: Result<DirChange, E>)
    ensures
        match prior {
            Ok(p) => r matches Ok(c) && c.prev_dir_view() == p@ && c.target_view() == dir@,
            Err(e) => r == Err::<DirChange, E>(e),
        },
{
    match prior {
        Ok(prev_dir) => Ok(DirChange { prev_dir, target: dir }),
        Err(e) => Err(e),
    }
}

impl DirChange {
    pub closed spec fn prev_dir_view(&self) -> Seq<char> {
        self.prev_dir@
    }

    pub closed spec fn target_view(&self) -> Seq<char> {
        self.target@
    }

    /// The directory to change to, as it was asked for.
    pub fn target(&self) -> (r: &String)
        ensures
            r@ == self.target_view(),
    {
        &self.target
    }

    /// Takes the outcome of changing the directory. A failed change ends the
    /// opening with its error; nothing needs to be put back.
    pub fn entered<E>(self, set: Result<(), E>) -> (r: Result<DirChanged, E>)
        ensures
            match set {
                Ok(_) => r matches Ok(c) && c.prev_dir_view() == self.prev_dir_view(),
                Err(e) => r == Err::<DirChanged, E>(e),
            },
    {
        match set {
            Ok(()) => Ok(DirChanged { prev_dir: self.prev_dir }),
            Err(e) => Err(e),
        }
    }
}

impl DirChanged {
    pub closed spec fn prev_dir_view(&self) -> Seq<char> {
        self.prev_dir@
    }

    /// Takes the working directory read after the change and completes the
    /// guard, which records it as the directory it set. A failed read ends
    /// the opening with its error.
    pub fn confirm<E>(self, now: Result<String, E>) -> (r: Result<Pushd, E>)
        ensures
            match now {
                Ok(d) => r matches Ok(g) && g@ == (PushdView { prev_dir: self.prev_dir_view(), dir: d@ }),
                Err(e) => r == Err::<Pushd, E>(e),
            },
    {
        match now {
            Ok(dir) => Ok(Pushd::new(self.prev_dir, dir)),
            Err(e) => Err(e),
        }
    }
}

impl Pushd {
    /// A guard that records `prev_dir` as the directory to go back to and
    /// `dir` as the one it set.
    pub fn new(prev_dir: String, dir: String) -> (r: Pushd)
        ensures
            r@ == (PushdView { prev_dir: prev_dir@, dir: dir@ }),
    {
        Pushd { prev_dir, dir }
    }

    /// The directory to go back to when the guard is closed.
    pub fn prev_dir(&self) -> (r: &String)
        ensures
            r@ == self@.prev_dir,
    {
        &self.prev_dir
    }

    /// The directory the guard set, in the form the system reported it.
    pub fn dir(&self) -> (r: &String)
        ensures
            r@ == self@.dir,
    {
        &self.dir
    }

    /// Decides the closing of the guard from the working directory read at
    /// that moment (`current`). Where it is still the directory the guard set,
    /// the result is the directory to change back to; otherwise the violation
    /// found, which the caller must treat as fatal.
    pub fn close<E>(&self, current: Result<String, E>) -> (r: Result<String, DirViolation<E>>)
        ensures
            match current {
                Ok(c) => match restore_target(self@, c@) {
                    Some(back) => r matches Ok(b) && b@ == back,
                    None => r matches Err(DirViolation::Changed { expected, got })
                        && expected@ == self@.dir && got@ == c@,
                },
                Err(e) => r == Err::<String, DirViolation<E>>(DirViolation::Unreadable(e)),
            },
    {
        match current {
            Ok(c) => {
                if c == self.dir {
                    Ok(self.prev_dir.clone())
                } else {
                    Err(DirViolation::Changed { expected: self.dir.clone(), got: c })
                }
            },
            Err(e) => Err(DirViolation::Unreadable(e)),
        }
    }
}

/// A directory guard undoes exactly what it did: opened where the working
/// directory read `before` and the change read back as `after`, it records
/// the two; closed while the directory still reads `after`, it sends the
/// working directory back to `before`.
pub proof fn lemma_pushd_round_trip(before: Seq<char>, after: Seq<char>)
    ensures
        ({
            let g = PushdView { prev_dir: before, dir: after };
            &&& g.dir == after
            &&& restore_target(g, after) == Some(before)
        }),
{
}

} // verus!
