use vstd::prelude::*;

verus! {

/// The style a toolkit gives a cell when none is chosen: any value that its
/// `Default` implementation may return.
pub open spec fn is_default_style<S: Default>(s: S) -> bool {
    call_ensures(S::default, (), s)
}

/// One grid position made concrete: a piece of content and the style of the
/// container that holds it.
pub struct Cell<C, S> {
    pub content: C,
    pub style: S,
}

impl<C, S: Copy + Default> Cell<C, S> {
    /// A cell holding `content`, with the toolkit's default style.
    pub fn new(content: C) -> (r: Self)
        ensures
            r.content == content,
            is_default_style(r.style),
    {
        Cell { content, style: S::default() }
    }

    /// The same cell with its style replaced as a whole.
    pub fn style(self, style: S) -> (r: Self)
        ensures
            r.content == self.content,
            r.style == style,
    {
        Cell { content: self.content, style }
    }
}

/// Where a factory gets each cell it produces.
pub enum Source<C, S, F> {
    /// A copy of the content, always paired with the same style.
    Fixed(C, S),
    /// Whatever the function returns when called.
    Function(F),
}

/// A deferred producer of cells: called once for each render pass, so that
/// every pass owns freshly made content.
pub struct Factory<C, S, F> {
    pub source: Source<C, S, F>,
}

impl<C: Clone, S: Copy + Default, F: Fn() -> Cell<C, S>> Factory<C, S, F> {
    /// Whether the factory can be called: a function factory's function must
    /// accept being called with no arguments.
    pub open spec fn wf(&self) -> bool {
        match self.source {
            Source::Fixed(_, _) => true,
            Source::Function(f) => f.requires(()),
        }
    }

    /// Whether `cell` is a possible outcome of one call of the factory.
    pub open spec fn produces(&self, cell: Cell<C, S>) -> bool {
        match self.source {
            Source::Fixed(c, s) => cloned(c, cell.content) && cell.style == s,
            Source::Function(f) => f.ensures((), cell),
        }
    }

    /// The style that every call of the factory gives its cell, where the
    /// factory fixes one.
    pub open spec fn fixed_style(&self) -> Option<S> {
        match self.source {
            Source::Fixed(_, s) => Some(s),
            Source::Function(_) => None,
        }
    }

    /// Every cell the factory can produce has the same style.
    pub open spec fn style_determined(&self) -> bool {
        forall|a: Cell<C, S>, b: Cell<C, S>| self.produces(a) && self.produces(b) ==> a.style == b.style
    }

    /// A factory that pairs a copy of `element` with the default style.
    pub fn from_element(element: C) -> (r: Self)
        ensures
            r.source matches Source::Fixed(c, s) && c == element && is_default_style(s),
            r.wf(),
    {
        Factory { source: Source::Fixed(element, S::default()) }
    }

    /// A factory that pairs a copy of `element` with `style` on every call.
    pub fn from_element_and_style(element: C, style: S) -> (r: Self)
        ensures
            r.source == Source::<C, S, F>::Fixed(element, style),
            r.wf(),
    {
        Factory { source: Source::Fixed(element, style) }
    }

    /// A factory that calls `factory` for each cell.
    pub fn from_factory(factory: F) -> (r: Self)
        ensures
            r.source == Source::<C, S, F>::Function(factory),
    {
        Factory { source: Source::Function(factory) }
    }

    /// Makes one cell.
    pub fn produce(&self) -> (r: Cell<C, S>)
        requires
            self.wf(),
        ensures
            self.produces(r),
    {
        match &self.source {
            Source::Fixed(c, s) => Cell { content: c.clone(), style: *s },
            Source::Function(f) => f(),
        }
    }
}


/// A factory that fixes a style gives every cell it produces exactly that
/// style, on every call; so every cell of a factory made from an element
/// alone carries the default style.
pub proof fn lemma_fixed_style_every_call<C: Clone, S: Copy + Default, F: Fn() -> Cell<C, S>>(
    f: Factory<C, S, F>,
    cell: Cell<C, S>,
)
    requires
        f.produces(cell),
    ensures
        f.fixed_style() matches Some(s) ==> cell.style == s,
        f.source matches Source::Fixed(_, s) && is_default_style(s) ==> is_default_style(cell.style),
{
}

/// A factory that fixes a style produces cells of one style only.
pub proof fn lemma_fixed_style_determined<C: Clone, S: Copy + Default, F: Fn() -> Cell<C, S>>(
    f: Factory<C, S, F>,
)
    requires
        f.fixed_style() is Some,
    ensures
        f.style_determined(),
{
}

} // verus!
