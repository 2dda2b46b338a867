//! The single `citro3d` instance: the texture combiner stages configured through it.

use vstd::prelude::*;

use crate::error::Error;
use crate::texenv::{Stage, TexEnv};

verus! {

/// The single instance for using `citro3d`, as far as its own state goes: the
/// texture combiner stages configured through it.
#[derive(Debug)]
pub struct Instance {
    texenvs: [Option<TexEnv>; 6],
}

impl Instance {
    /// The combiner stages configured so far.
    pub closed spec fn spec_texenvs(self) -> Seq<Option<TexEnv>> {
        self.texenvs@
    }

    /// The instance, once `C3D_Init` reported whether `citro3d` could be initialized.
    ///
    /// # Errors
    ///
    /// [`Error::FailedToInitialize`] if `citro3d` could not be initialized.
    pub fn with_init_result(initialized: bool) -> (r: Result<Self, Error>)
        ensures
            r is Ok <==> initialized,
            r matches Err(e) ==> e == Error::FailedToInitialize,
            r matches Ok(i) ==> i.spec_texenvs() == Seq::new(6, |k: int| None::<TexEnv>),
    {
        if initialized {
            let i = Instance { texenvs: [None, None, None, None, None, None] };
            assert(i.texenvs@ =~= Seq::new(6, |k: int| None::<TexEnv>));
            Ok(i)
        } else {
            Err(Error::FailedToInitialize)
        }
    }

    /// The outcome of selecting a render target (`C3D_FrameDrawOn` reported `selected`).
    ///
    /// # Errors
    ///
    /// [`Error::InvalidRenderTarget`] if the target could not be selected.
    pub fn select_render_target(selected: bool) -> (r: Result<(), Error>)
        ensures
            r is Ok <==> selected,
            r matches Err(e) ==> e == Error::InvalidRenderTarget,
    {
        if selected {
            Ok(())
        } else {
            Err(Error::InvalidRenderTarget)
        }
    }

    /// Retrieve the [`TexEnv`] for the given stage, initializing it first if necessary.
    pub fn texenv(&mut self, stage: Stage) -> (r: &mut TexEnv)
        ensures
            old(self).spec_texenvs()[stage.spec_index() as int] matches Some(t) ==> *r == t,
            old(self).spec_texenvs()[stage.spec_index() as int] is None ==> r.spec_is_fresh(),
            final(self).spec_texenvs() == old(self).spec_texenvs().update(
                stage.spec_index() as int,
                Some(*final(r)),
            ),
    {
        let i = stage.index();
        if self.texenvs[i].is_none() {
            self.texenvs[i] = Some(TexEnv::new());
        }
        self.texenvs[i].as_mut().unwrap()
    }
}

} // verus!
