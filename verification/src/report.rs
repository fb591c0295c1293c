//! The lines the tool reports: one per rendered file, one per failure,
//! each with enough context (path, underlying cause) for an operator.

use vstd::prelude::*;

verus! {

/// The line reported for one successfully rendered file.
pub fn rendered_line(path: &str) -> (r: String)
    ensures
        r@ == "Rendered '"@ + path@ + "'"@,
{
    let mut m = String::from_str("Rendered '");
    m.append(path);
    m.append("'");
    m
}

/// The line reported when the source path is missing or no directory.
pub fn source_error_line(path: &str) -> (r: String)
    ensures
        r@ == "Error: The source path '"@ + path@
            + "' for the templates does not exist or is not a directory."@,
{
    let mut m = String::from_str("Error: The source path '");
    m.append(path);
    m.append("' for the templates does not exist or is not a directory.");
    m
}

/// The line reported when the template set fails to parse.
pub fn parse_error_line(error: &str) -> (r: String)
    ensures
        r@ == "Error while parsing templates: "@ + error@,
{
    let mut m = String::from_str("Error while parsing templates: ");
    m.append(error);
    m
}

/// The line reported when the destination directory cannot be created.
pub fn destination_create_error_line(path: &str, error: &str) -> (r: String)
    ensures
        r@ == "Error: Failed to create destination directory '"@ + path@ + "': "@ + error@,
{
    let mut m = String::from_str("Error: Failed to create destination directory '");
    m.append(path);
    m.append("': ");
    m.append(error);
    m
}

/// The line reported when the destination path exists but is no directory.
pub fn destination_not_dir_line(path: &str) -> (r: String)
    ensures
        r@ == "Error: The destination path '"@ + path@ + "' is not a directory."@,
{
    let mut m = String::from_str("Error: The destination path '");
    m.append(path);
    m.append("' is not a directory.");
    m
}

/// The line reported when an output file cannot be created.
pub fn create_file_error_line(path: &str, error: &str) -> (r: String)
    ensures
        r@ == "Error: Failed to create file '"@ + path@ + "': "@ + error@,
{
    let mut m = String::from_str("Error: Failed to create file '");
    m.append(path);
    m.append("': ");
    m.append(error);
    m
}

/// The line reported when one template fails to render.
pub fn render_error_line(name: &str, error: &str) -> (r: String)
    ensures
        r@ == "Error while rendering template '"@ + name@ + "': "@ + error@,
{
    let mut m = String::from_str("Error while rendering template '");
    m.append(name);
    m.append("': ");
    m.append(error);
    m
}

} // verus!
