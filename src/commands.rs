use vstd::prelude::*;
use vstd::string::*;

verus! {

/// Reply to turning the custom script on or off.
pub struct JsToggleResponse {
    pub enabled: bool,
}

/// Reply to replacing the custom script's content.
pub struct JsSetContentResponse {
    pub success: bool,
    pub error: Option<String>,
}

/// Reply to loading a custom script from a file the user picked.
pub struct JsLoadResponse {
    pub success: bool,
    pub error: Option<String>,
    pub content: Option<String>,
    pub path: Option<String>,
}

/// The window a bridge message addressed to `target` goes to: `main` and
/// `overlay` name themselves, any other target names no window.
pub fn bridge_target_window(target: &String) -> (r: Option<&'static str>)
    ensures
        r matches Some(l) ==> l@ == target@,
        r is None <==> (target@ != "main"@ && target@ != "overlay"@),
{
    let main = String::from_str("main");
    let overlay = String::from_str("overlay");
    if *target == main {
        Some("main")
    } else if *target == overlay {
        Some("overlay")
    } else {
        None
    }
}

impl JsSetContentResponse {
    /// The reply once the content has been stored.
    pub fn stored() -> (r: JsSetContentResponse)
        ensures
            r.success,
            r.error is None,
    {
        JsSetContentResponse { success: true, error: None }
    }
}

impl JsLoadResponse {
    /// The reply to a load: no file picked gives a plain failure; a file that
    /// could not be read gives the read error and the path; otherwise the
    /// content and the path.
    pub fn from_outcome(path: Option<String>, read: Option<Result<String, String>>) -> (r:
        JsLoadResponse)
        ensures
            r.success <==> (path is Some && read matches Some(Ok(_))),
            path is None ==> r.error is None && r.content is None && r.path is None,
            path is Some ==> r.path == path,
            path is Some ==> (read matches Some(Ok(c)) ==> r.content == Some(c) && r.error is None),
            path is Some ==> (read matches Some(Err(e)) ==> r.error == Some(e) && r.content is None),
            path is Some && read is None ==> r.error is None && r.content is None,
    {
        match path {
            None => JsLoadResponse { success: false, error: None, content: None, path: None },
            Some(p) => match read {
                Some(Ok(c)) => JsLoadResponse {
                    success: true,
                    error: None,
                    content: Some(c),
                    path: Some(p),
                },
                Some(Err(e)) => JsLoadResponse {
                    success: false,
                    error: Some(e),
                    content: None,
                    path: Some(p),
                },
                None => JsLoadResponse { success: false, error: None, content: None, path: Some(p) },
            },
        }
    }
}

} // verus!
