use vstd::prelude::*;

verus! {

/// The text styles a module page is drawn with.
#[derive(Clone, Copy, Debug, PartialEq, Eq, Structural)]
pub enum ModuleStyle {
    Large,
    Default,
}

/// The platforms a module page is made for.
#[derive(Clone, Copy, Debug, PartialEq, Eq, Structural)]
pub enum ModuleCaps {
    Desktop,
    Mobile,
    WebApp,
    Extension,
}

} // verus!
