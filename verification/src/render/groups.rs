//! Rendering of the owning-group column.

use crate::fields::Group;
use crate::render::{alert_style, spec_alert_style, RenderedCell, Style, UserFormat};
use crate::sid::{AccountName, Error};
use vstd::prelude::*;
use vstd::string::StringExecFns;

verus! {

/// The styles a theme offers for the owning-group column. Implemented
/// by the colour-theme collaborator; a plain implementation lives here
/// as [`Palette`].
pub trait Colours {
    /// The style for a group the viewing user belongs to.
    spec fn spec_yours(&self) -> Style;

    /// The style for any other group.
    spec fn spec_not_yours(&self) -> Style;

    fn yours(&self) -> (s: Style)
        ensures
            s == self.spec_yours(),
    ;

    fn not_yours(&self) -> (s: Style)
        ensures
            s == self.spec_not_yours(),
    ;
}

/// A theme that holds one fixed style per role.
#[derive(PartialEq, Eq, Copy, Clone, Debug)]
pub struct Palette {
    pub yours_style: Style,
    pub not_yours_style: Style,
}

impl Colours for Palette {
    open spec fn spec_yours(&self) -> Style {
        self.yours_style
    }

    open spec fn spec_not_yours(&self) -> Style {
        self.not_yours_style
    }

    fn yours(&self) -> Style {
        self.yours_style
    }

    fn not_yours(&self) -> Style {
        self.not_yours_style
    }
}

impl Group {
    /// Turn the outcome of the group's identity resolution into the
    /// cell for the group column: on success, the domain and group
    /// name joined with a slash, in the theme's style; on failure, a
    /// fixed error marker in the alert style, and never a propagated
    /// error. The resolution is performed by the platform layer and
    /// handed in; the display-format option is accepted but not yet
    /// applied, and the style is unconditionally the one for a group
    /// that is not the viewing user's own.
    pub fn render<C: Colours>(
        &self,
        colours: &C,
        _format: UserFormat,
        resolution: &Result<AccountName, Error>,
    ) -> (cell: RenderedCell)
        ensures
            resolution is Ok ==> cell.text@ == resolution->Ok_0.domain@ + "/"@
                + resolution->Ok_0.name@,
            resolution is Ok ==> cell.style == colours.spec_not_yours(),
            resolution is Err ==> cell.text@ == "ERROR"@,
            resolution is Err ==> cell.style == spec_alert_style(),
    {
        match resolution {
            Ok(account) => {
                let mut text = account.domain.clone();
                text.append("/");
                text.append(account.name.as_str());
                RenderedCell { text, style: colours.not_yours() }
            },
            Err(_) => RenderedCell { text: "ERROR".to_owned(), style: alert_style() },
        }
    }
}

} // verus!
