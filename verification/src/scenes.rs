//! Scene-stack bookkeeping: which scenes are alive, which one is on
//! top, and when the application should quit. The presentation layer
//! owns the scene objects themselves; this model decides every stack
//! transition.

use vstd::prelude::*;

verus! {

/// The four scenes of the game, as a closed variant set.
#[derive(Copy, Clone, Debug, PartialEq, Eq, Structural)]
pub enum SceneKind {
    Menu,
    Select,
    Settings,
    Race,
}

/// The navigation signal a scene returns from one frame's input or
/// update call, interpreted by the stack-managing driver loop.
#[derive(Copy, Clone, Debug, PartialEq, Eq, Structural)]
pub enum SceneSwitch {
    Stay,
    Push(SceneKind),
    Replace(SceneKind),
    Pop,
    Quit,
}

/// What a navigation signal does to the stack: `Push` appends, `Replace`
/// swaps the top (or appends to an empty stack), `Pop` removes the top
/// (or leaves an empty stack alone), `Stay` and `Quit` leave it as is.
pub open spec fn spec_apply_switch(s: Seq<SceneKind>, switch: SceneSwitch) -> Seq<SceneKind> {
    match switch {
        SceneSwitch::Stay => s,
        SceneSwitch::Quit => s,
        SceneSwitch::Push(k) => s.push(k),
        SceneSwitch::Replace(k) => if s.len() > 0 {
            s.drop_last().push(k)
        } else {
            s.push(k)
        },
        SceneSwitch::Pop => if s.len() > 0 {
            s.drop_last()
        } else {
            s
        },
    }
}

/// The stack of live scenes, top last, plus the quit flag.
pub struct SceneManager {
    pub scenes: Vec<SceneKind>,
    pub quit: bool,
}

impl SceneManager {
    /// A fresh manager holding exactly the initial scene.
    pub fn new(initial: SceneKind) -> (m: Self)
        ensures
            m.scenes@ == seq![initial],
            !m.quit,
    {
        let mut scenes: Vec<SceneKind> = Vec::new();
        scenes.push(initial);
        proof {
            assert(scenes@ =~= seq![initial]);
        }
        Self { scenes, quit: false }
    }

    /// Apply one navigation signal to the stack; only `Quit` raises the
    /// quit flag, and nothing ever lowers it.
    pub fn apply_switch(&mut self, switch: SceneSwitch)
        ensures
            final(self).scenes@ == spec_apply_switch(old(self).scenes@, switch),
            final(self).quit == (old(self).quit || switch is Quit),
    {
        match switch {
            SceneSwitch::Stay => {},
            SceneSwitch::Push(k) => {
                self.scenes.push(k);
            },
            SceneSwitch::Replace(k) => {
                let _popped = self.scenes.pop();
                self.scenes.push(k);
                proof {
                    if old(self).scenes@.len() > 0 {
                        assert(self.scenes@ =~= old(self).scenes@.drop_last().push(k));
                    } else {
                        assert(self.scenes@ =~= old(self).scenes@.push(k));
                    }
                }
            },
            SceneSwitch::Pop => {
                let _popped = self.scenes.pop();
                proof {
                    if old(self).scenes@.len() > 0 {
                        assert(self.scenes@ =~= old(self).scenes@.drop_last());
                    }
                }
            },
            SceneSwitch::Quit => {
                self.quit = true;
            },
        }
    }

    /// The scene currently in charge of the frame, if any.
    pub fn active(&self) -> (k: Option<SceneKind>)
        ensures
            self.scenes@.len() > 0 ==> k == Some(self.scenes@.last()),
            self.scenes@.len() == 0 ==> k is None,
    {
        if self.scenes.len() > 0 {
            Some(self.scenes[self.scenes.len() - 1])
        } else {
            None
        }
    }

    /// The driver loop stops when quit was signalled or no scene is
    /// left.
    pub fn should_quit(&self) -> (b: bool)
        ensures
            b == (self.quit || self.scenes@.len() == 0),
    {
        self.quit || self.scenes.len() == 0
    }
}

} // verus!
