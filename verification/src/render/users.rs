//! Rendering of the owning-user column.

use crate::fields::User;
use crate::render::{alert_style, spec_alert_style, RenderedCell, Style, UserFormat};
use crate::sid::{AccountName, Error};
use vstd::prelude::*;
use vstd::string::StringExecFns;

verus! {

/// The styles a theme offers for the owning-user column. Implemented
/// by the colour-theme collaborator; a plain implementation lives here
/// as [`Palette`].
pub trait Colours {
    /// The style for an account that belongs to the viewing user.
    spec fn spec_you(&self) -> Style;

    /// The style for any other account.
    spec fn spec_someone_else(&self) -> Style;

    fn you(&self) -> (s: Style)
        ensures
            s == self.spec_you(),
    ;

    fn someone_else(&self) -> (s: Style)
        ensures
            s == self.spec_someone_else(),
    ;
}

/// A theme that holds one fixed style per role.
#[derive(PartialEq, Eq, Copy, Clone, Debug)]
pub struct Palette {
    pub you_style: Style,
    pub someone_else_style: Style,
}

impl Colours for Palette {
    open spec fn spec_you(&self) -> Style {
        self.you_style
    }

    open spec fn spec_someone_else(&self) -> Style {
        self.someone_else_style
    }

    fn you(&self) -> Style {
        self.you_style
    }

    fn someone_else(&self) -> Style {
        self.someone_else_style
    }
}

impl User {
    /// Turn the outcome of the owner's identity resolution into the
    /// cell for the user column: on success, the domain and account
    /// name joined with a slash, in the theme's style; on failure, a
    /// fixed error marker in the alert style, and never a propagated
    /// error. The resolution is performed by the platform layer and
    /// handed in; the display-format option is accepted but not yet
    /// applied, and the style is unconditionally the one for an
    /// account that is not the viewing user's own.
    pub fn render<C: Colours>(
        &self,
        colours: &C,
        _format: UserFormat,
        resolution: &Result<AccountName, Error>,
    ) -> (cell: RenderedCell)
        ensures
            resolution is Ok ==> cell.text@ == resolution->Ok_0.domain@ + "/"@
                + resolution->Ok_0.name@,
            resolution is Ok ==> cell.style == colours.spec_someone_else(),
            resolution is Err ==> cell.text@ == "ERROR"@,
            resolution is Err ==> cell.style == spec_alert_style(),
    {
        match resolution {
            Ok(account) => {
                let mut text = account.domain.clone();
                text.append("/");
                text.append(account.name.as_str());
                RenderedCell { text, style: colours.someone_else() }
            },
            Err(_) => RenderedCell { text: "ERROR".to_owned(), style: alert_style() },
        }
    }
}

} // verus!
