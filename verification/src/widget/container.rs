//! The container: a widget that is a panel.

use super::attr::Attr;
use super::WidgetList;
use vstd::prelude::*;

verus! {

/// A widget that holds other widgets and lays them out.
#[derive(PartialEq, Debug)]
pub struct Container {
    pub attr: Attr,
    pub children: WidgetList,
}

impl Container {
    pub fn new(attr: Option<Attr>) -> (container: Box<Container>)
        ensures
            container.children@.len() == 0,
            match attr {
                Some(a) => container.attr == a,
                None => container.attr.is_default(),
            },
    {
        Box::new(
            Container {
                attr: match attr {
                    Some(a) => a,
                    None => Attr::new(),
                },
                children: WidgetList(Vec::new()),
            },
        )
    }
}

} // verus!
