//! Interface-facing configuration values: which view is laid out, which
//! page of the configuration editor is open, and which terminal image
//! protocol the process detected at startup.

use vstd::prelude::*;

verus! {

/// The main view layout.
#[derive(Clone, Copy, Debug, PartialEq, Eq, Structural)]
pub enum TermusicLayout {
    TreeView,
    DataBase,
    Podcast,
}

/// The open page of the configuration editor.
#[derive(Clone, Copy, Debug, PartialEq, Eq, Structural)]
pub enum ConfigEditorLayout {
    General,
    Color,
    Key1,
    Key2,
}

/// Which terminal image protocol is available for cover art.
#[derive(Clone, Copy, Debug, PartialEq, Eq, Structural)]
pub enum ViuerSupported {
    Kitty,
    ITerm,
    NotSupported,
}

/// Pick the image protocol from the detection probes, preferring the
/// kitty protocol over the iTerm one; with neither, cover art is off. The
/// probes themselves interrogate the terminal and run outside.
pub fn viuer_support(kitty: bool, iterm: bool) -> (r: ViuerSupported)
    ensures
        r == (if kitty {
            ViuerSupported::Kitty
        } else if iterm {
            ViuerSupported::ITerm
        } else {
            ViuerSupported::NotSupported
        }),
{
    if kitty {
        ViuerSupported::Kitty
    } else if iterm {
        ViuerSupported::ITerm
    } else {
        ViuerSupported::NotSupported
    }
}

} // verus!
