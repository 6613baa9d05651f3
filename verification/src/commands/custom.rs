//! Custom apps from the command line.

use vstd::prelude::*;
use crate::models::app::{CustomApp, CustomAppView};
use crate::text::text_of;

verus! {

/// The custom app that the arguments describe: the text, the icon and
/// the duration where given, and nothing else.
pub fn custom_app_from_args(text: Option<String>, icon: Option<u32>, duration: Option<u32>) -> (app:
    CustomApp)
    ensures
        app@ == (CustomAppView { text: text_of(text), icon, duration, ..CustomAppView::empty() }),
{
    let mut app = CustomApp::new();
    app.text = text;
    app.icon = icon;
    app.duration = duration;
    app
}

} // verus!
