//! The status flags and the loading sign.

use vstd::prelude::*;

verus! {

/// The flags that tell the screen what the monitor is busy with.
#[derive(Debug, Clone, Copy, PartialEq, Eq, Hash, Structural)]
pub enum Status {
    /// The first samples and logs have not all arrived.
    Init,
    /// An error is shown.
    Error,
}

/// The number of glyphs that the loading sign turns through.
pub const LOADING_FRAMES: u8 = 10;

/// The flags that are raised, the operations that the loading sign stands for,
/// each under its own token, and the glyph that the sign shows.
#[derive(Debug)]
pub struct GuiState {
    init: bool,
    error: bool,
    is_loading: Vec<u128>,
    loading_index: u8,
}

impl GuiState {
    #[verifier::type_invariant]
    spec fn well_formed(&self) -> bool {
        &&& self.is_loading@.no_duplicates()
        &&& self.loading_index < LOADING_FRAMES
    }

    /// The flags that are raised.
    pub closed spec fn status(&self) -> Set<Status> {
        Set::new(
            |status: Status|
                match status {
                    Status::Init => self.init,
                    Status::Error => self.error,
                },
        )
    }

    /// The tokens of the operations that are under way.
    pub closed spec fn loading(&self) -> Set<u128> {
        self.is_loading@.to_set()
    }

    /// The glyph that the loading sign shows, counted from zero.
    pub closed spec fn frame(&self) -> u8 {
        self.loading_index
    }

    /// The glyph that follows glyph `frame`.
    pub open spec fn next_frame(frame: u8) -> u8 {
        if frame + 1 < LOADING_FRAMES {
            (frame + 1) as u8
        } else {
            0
        }
    }

    /// No flag is raised and nothing is loading.
    pub fn new() -> (gui_state: Self)
        ensures
            gui_state.status() == Set::<Status>::empty(),
            gui_state.loading() == Set::<u128>::empty(),
            gui_state.frame() == 0,
    {
        let gui_state = GuiState { init: false, error: false, is_loading: Vec::new(), loading_index: 0 };
        assert(gui_state.status() =~= Set::<Status>::empty());
        assert(gui_state.loading() =~= Set::<u128>::empty());
        gui_state
    }

    /// Raises a flag.
    pub fn status_push(&mut self, status: Status)
        ensures
            final(self).status() == old(self).status().insert(status),
            final(self).loading() == old(self).loading(),
            final(self).frame() == old(self).frame(),
    {
        proof {
            use_type_invariant(&*self);
        }
        match status {
            Status::Init => {
                self.init = true;
            },
            Status::Error => {
                self.error = true;
            },
        }
        assert(self.status() =~= old(self).status().insert(status));
    }

    /// Lowers a flag.
    pub fn status_del(&mut self, status: Status)
        ensures
            final(self).status() == old(self).status().remove(status),
            final(self).loading() == old(self).loading(),
            final(self).frame() == old(self).frame(),
    {
        proof {
            use_type_invariant(&*self);
        }
        match status {
            Status::Init => {
                self.init = false;
            },
            Status::Error => {
                self.error = false;
            },
        }
        assert(self.status() =~= old(self).status().remove(status));
    }

    /// Whether a flag is raised.
    pub fn status_contains(&self, status: Status) -> (r: bool)
        ensures
            r == self.status().contains(status),
    {
        match status {
            Status::Init => self.init,
            Status::Error => self.error,
        }
    }

    /// Whether an operation is under way.
    pub fn is_loading(&self) -> (r: bool)
        ensures
            r == (self.loading() != Set::<u128>::empty()),
    {
        proof {
            if self.is_loading@.len() > 0 {
                assert(self.loading().contains(self.is_loading@[0]));
            } else {
                assert(self.loading() =~= Set::<u128>::empty());
            }
        }
        self.is_loading.len() > 0
    }

    /// The glyph that the loading sign shows, counted from zero.
    pub fn get_loading(&self) -> (frame: u8)
        ensures
            frame == self.frame(),
            frame < LOADING_FRAMES,
    {
        proof {
            use_type_invariant(self);
        }
        self.loading_index
    }

    /// Where token `uuid` stands.
    fn position(&self, uuid: u128) -> (at: Option<usize>)
        ensures
            at is Some <==> self.loading().contains(uuid),
            at matches Some(i) ==> i < self.is_loading@.len() && self.is_loading@[i as int] == uuid,
    {
        let mut i: usize = 0;
        while i < self.is_loading.len()
            invariant
                i <= self.is_loading@.len(),
                forall|j: int| 0 <= j < i ==> self.is_loading@[j] != uuid,
            decreases self.is_loading@.len() - i,
        {
            if self.is_loading[i] == uuid {
                return Some(i);
            }
            i += 1;
        }
        None
    }

    /// One tick of the loading sign on behalf of operation `uuid`: the sign
    /// turns to its next glyph, and the operation counts as under way.
    pub fn next_loading(&mut self, uuid: u128)
        ensures
            final(self).loading() == old(self).loading().insert(uuid),
            final(self).frame() == Self::next_frame(old(self).frame()),
            final(self).status() == old(self).status(),
    {
        proof {
            use_type_invariant(&*self);
        }
        let ghost before = self.is_loading@;
        if self.loading_index + 1 < LOADING_FRAMES {
            self.loading_index = self.loading_index + 1;
        } else {
            self.loading_index = 0;
        }
        if self.position(uuid).is_none() {
            let mut tokens: Vec<u128> = Vec::new();
            std::mem::swap(&mut self.is_loading, &mut tokens);
            tokens.push(uuid);
            proof {
                assert(tokens@ =~= before.push(uuid));
                assert forall|i: int, j: int|
                    0 <= i < tokens@.len() && 0 <= j < tokens@.len() && i != j implies tokens@[i]
                    != tokens@[j] by {
                    if i < before.len() && j < before.len() {
                    } else if i < before.len() {
                        assert(before.contains(before[i]));
                    } else {
                        assert(before.contains(before[j]));
                    }
                }
                assert forall|t: u128| tokens@.to_set().contains(t) implies before.to_set().insert(
                    uuid,
                ).contains(t) by {
                    let i = choose|i: int| 0 <= i < tokens@.len() && tokens@[i] == t;
                    if i < before.len() {
                        assert(before[i] == t);
                    }
                }
                assert forall|t: u128| before.to_set().insert(uuid).contains(t) implies tokens@.to_set().contains(
                    t,
                ) by {
                    if t == uuid {
                        assert(tokens@[before.len() as int] == t);
                    } else {
                        let i = choose|i: int| 0 <= i < before.len() && before[i] == t;
                        assert(tokens@[i] == t);
                    }
                }
                assert(tokens@.to_set() =~= before.to_set().insert(uuid));
            }
            self.is_loading = tokens;
        } else {
            assert(self.loading().insert(uuid) =~= self.loading());
        }
        assert(self.status() =~= old(self).status());
    }

    /// Operation `uuid` has ended.
    pub fn remove_loading(&mut self, uuid: u128)
        ensures
            final(self).loading() == old(self).loading().remove(uuid),
            final(self).frame() == old(self).frame(),
            final(self).status() == old(self).status(),
    {
        proof {
            use_type_invariant(&*self);
        }
        let ghost before = self.is_loading@;
        match self.position(uuid) {
            None => {
                assert(self.loading().remove(uuid) =~= self.loading());
            },
            Some(i) => {
                let mut tokens: Vec<u128> = Vec::new();
                std::mem::swap(&mut self.is_loading, &mut tokens);
                tokens.remove(i);
                proof {
                    assert(tokens@ =~= before.remove(i as int));
                    assert forall|t: u128| tokens@.to_set().contains(t) implies before.to_set().remove(
                        uuid,
                    ).contains(t) by {
                        let j = choose|j: int| 0 <= j < tokens@.len() && tokens@[j] == t;
                        if j < i {
                            assert(before[j] == t);
                        } else {
                            assert(before[j + 1] == t);
                        }
                    }
                    assert forall|t: u128| before.to_set().remove(uuid).contains(t) implies tokens@.to_set().contains(
                        t,
                    ) by {
                        let j = choose|j: int| 0 <= j < before.len() && before[j] == t;
                        if j < i {
                            assert(tokens@[j] == t);
                        } else {
                            assert(tokens@[j - 1] == t);
                        }
                    }
                    assert(tokens@.to_set() =~= before.to_set().remove(uuid));
                }
                self.is_loading = tokens;
            },
        }
        assert(self.status() =~= old(self).status());
    }
}

} // verus!
