//! A link: a piece of text that opens an address, calls a handler, or both,
//! when it is clicked.

use vstd::prelude::*;

use crate::date::text_of;
use crate::element::{ElementId, ElementIdModel};

verus! {

/// What the host has to carry out after an event on a link.
#[derive(Debug, PartialEq, Eq)]
pub enum LinkEffect {
    /// Open the address.
    OpenUrl(String),
    /// Call the handler that was attached to the link.
    CallHandler,
    /// Keep the event from the enclosing elements.
    StopPropagation,
}

/// What a [`LinkEffect`] stands for.
pub enum LinkEffectModel {
    OpenUrl(Seq<char>),
    CallHandler,
    StopPropagation,
}

impl View for LinkEffect {
    type V = LinkEffectModel;

    open spec fn view(&self) -> LinkEffectModel {
        match self {
            LinkEffect::OpenUrl(url) => LinkEffectModel::OpenUrl(url@),
            LinkEffect::CallHandler => LinkEffectModel::CallHandler,
            LinkEffect::StopPropagation => LinkEffectModel::StopPropagation,
        }
    }
}

/// The views of a list of effects.
pub open spec fn link_effect_models(effects: Seq<LinkEffect>) -> Seq<LinkEffectModel> {
    Seq::new(effects.len(), |i: int| effects[i]@)
}

/// What a [`Link`] stands for.
pub struct LinkModel {
    /// The identifier of the link.
    pub id: ElementIdModel,
    /// The address that a click opens.
    pub href: Option<Seq<char>>,
    /// Whether the link is marked as disabled.
    pub disabled: bool,
    /// Whether a handler is attached.
    pub on_click: bool,
}

impl LinkModel {
    /// What the host is told after a click: to open the address where the
    /// link has one, then to call the handler where one is attached.
    pub open spec fn click_effects(self) -> Seq<LinkEffectModel> {
        let open = match self.href {
            Some(url) => seq![LinkEffectModel::OpenUrl(url)],
            None => Seq::empty(),
        };
        if self.on_click {
            open.push(LinkEffectModel::CallHandler)
        } else {
            open
        }
    }
}

/// A link, like an anchor in a page of hypertext.
#[derive(Debug, PartialEq, Eq)]
pub struct Link {
    id: ElementId,
    href: Option<String>,
    disabled: bool,
    on_click: bool,
}

impl View for Link {
    type V = LinkModel;

    closed spec fn view(&self) -> LinkModel {
        LinkModel {
            id: self.id@,
            href: text_of(self.href),
            disabled: self.disabled,
            on_click: self.on_click,
        }
    }
}

impl Link {
    /// A link without an address and without a handler, not disabled.
    pub fn new(id: ElementId) -> (out: Link)
        ensures
            out@ == (LinkModel { id: id@, href: None, disabled: false, on_click: false }),
    {
        Link { id, href: None, on_click: false, disabled: false }
    }

    /// Set the address that a click opens.
    pub fn href(self, href: &str) -> (out: Link)
        ensures
            out@ == (LinkModel { href: Some(href@), ..self@ }),
    {
        let mut link = self;
        link.href = Some(href.to_owned());
        link
    }

    /// Record that the host holds a handler for the clicks on this link.
    pub fn on_click(self) -> (out: Link)
        ensures
            out@ == (LinkModel { on_click: true, ..self@ }),
    {
        let mut link = self;
        link.on_click = true;
        link
    }

    /// Mark the link as disabled, or as not disabled. The mark is kept for
    /// the host; a click on the link does the same either way.
    pub fn disabled(self, disabled: bool) -> (out: Link)
        ensures
            out@ == (LinkModel { disabled, ..self@ }),
    {
        let mut link = self;
        link.disabled = disabled;
        link
    }

    /// Whether the link is marked as disabled.
    pub fn is_disabled(&self) -> (disabled: bool)
        ensures
            disabled == self@.disabled,
    {
        self.disabled
    }

    /// React to a click.
    pub fn click(&self) -> (effects: Vec<LinkEffect>)
        ensures
            link_effect_models(effects@) == self@.click_effects(),
    {
        let mut effects: Vec<LinkEffect> = Vec::new();
        match &self.href {
            Some(url) => {
                effects.push(LinkEffect::OpenUrl(url.clone()));
            },
            None => {},
        }
        if self.on_click {
            effects.push(LinkEffect::CallHandler);
        }
        assert(link_effect_models(effects@) =~= self@.click_effects());
        effects
    }

    /// React to the left mouse button going down on the link: the enclosing
    /// elements do not get the event.
    pub fn mouse_down(&self) -> (effects: Vec<LinkEffect>)
        ensures
            link_effect_models(effects@) == seq![LinkEffectModel::StopPropagation],
    {
        let mut effects: Vec<LinkEffect> = Vec::new();
        effects.push(LinkEffect::StopPropagation);
        assert(link_effect_models(effects@) =~= seq![LinkEffectModel::StopPropagation]);
        effects
    }
}

} // verus!
