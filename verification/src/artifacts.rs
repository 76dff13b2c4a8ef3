//! Boilerplate config files and ignore-file contents.

use vstd::prelude::*;
use vstd::string::StringExecFns;

use crate::errors::InitError;

verus! {

/// The fixed payload written into each fresh boilerplate config file.
pub open spec fn boilerplate_model() -> Seq<char> {
    "# this key MUST be present in all configuration files\nuse = false\n\n# add your config key-value pairs below:\n"@
}

/// The boilerplate payload as a string.
pub fn boilerplate_payload() -> (r: String)
    ensures
        r@ == boilerplate_model(),
{
    "# this key MUST be present in all configuration files\nuse = false\n\n# add your config key-value pairs below:\n".to_owned()
}

/// The three boilerplate file names derived from a package name.
pub fn config_file_names(package_name: &str) -> (r: (String, String, String))
    ensures
        r.0@ == package_name@ + ".template.toml"@,
        r.1@ == package_name@ + ".debug.toml"@,
        r.2@ == package_name@ + ".deploy.toml"@,
{
    let mut template = package_name.to_owned();
    template.append(".template.toml");
    let mut debug = package_name.to_owned();
    debug.append(".debug.toml");
    let mut deploy = package_name.to_owned();
    deploy.append(".deploy.toml");
    (template, debug, deploy)
}

/// Checks the current contents of the boilerplate files before anything
/// is written: succeeds exactly where every file is still empty. One
/// non-empty file refuses the whole set, so no file is ever partially
/// overwritten and user edits survive.
pub fn check_config_files(contents: &Vec<String>) -> (r: Result<(), InitError>)
    ensures
        r is Ok <==> (forall|j: int| 0 <= j < contents@.len() ==> contents@[j]@.len() == 0),
        r matches Err(e) ==> e is ConfigFilesExist,
{
    let n = contents.len();
    let mut i: usize = 0;
    while i < n
        invariant
            n == contents@.len(),
            i <= n,
            forall|j: int| 0 <= j < i ==> contents@[j]@.len() == 0,
        decreases n - i,
    {
        if !contents[i].as_str().is_empty() {
            return Err(InitError::ConfigFilesExist);
        }
        i = i + 1;
    }
    Ok(())
}

/// Law: a rerun over files that an earlier run just filled always fails
/// the emptiness check — the boilerplate payload is not empty — so a
/// second run reports the files as already existing instead of
/// rewriting them.
pub proof fn lemma_rerun_is_refused(contents: Seq<String>, i: int)
    requires
        0 <= i < contents.len(),
        contents[i]@ == boilerplate_model(),
    ensures
        !(forall|j: int| 0 <= j < contents.len() ==> contents[j]@.len() == 0),
{
    broadcast use vstd::string::group_string_axioms;

    reveal_strlit(
        "# this key MUST be present in all configuration files\nuse = false\n\n# add your config key-value pairs below:\n",
    );
    assert(contents[i]@.len() != 0);
}

/// The block appended to the ignore file beside the generated output:
/// a comment naming this tool, then the generated file's bare name.
pub fn gitignore_append_block(generated_file_name: &str) -> (r: String)
    ensures
        r@ == "\n\n# added by toml_const_cli\n"@ + generated_file_name@ + "\n"@,
{
    let mut r = "\n\n# added by toml_const_cli\n".to_owned();
    r.append(generated_file_name);
    r.append("\n");
    r
}

/// The full contents the config directory's ignore file is reset to: a
/// comment naming this tool, a rule excluding every config-format file,
/// and a negated rule keeping the template file.
pub fn config_gitignore_content(template_name: &str) -> (r: String)
    ensures
        r@ == "# added by toml_const_cli\n*.toml\n!"@ + template_name@,
{
    let mut r = "# added by toml_const_cli\n*.toml\n!".to_owned();
    r.append(template_name);
    r
}

} // verus!
