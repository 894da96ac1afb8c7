use vstd::prelude::*;
use vstd::string::StringExecFns;

verus! {

/// What a character manifest says about the character itself.
#[derive(Debug, Default, PartialEq, Eq)]
pub struct Character {
    /// The name of the character.
    pub name: String,
    /// The version of the character.
    pub version: Option<String>,
    /// The authors of the character.
    pub authors: Option<Vec<String>>,
    /// A description of the character.
    pub description: Option<String>,
    /// Path to the character's README file.
    pub readme: Option<String>,
    /// URL of the character homepage.
    pub homepage: Option<String>,
    /// URL of the character source repository.
    pub repository: String,
    /// The character license.
    pub license: Option<String>,
    /// Path to the text of the license.
    pub license_file: Option<String>,
    /// Keywords for the character.
    pub keywords: Option<Vec<String>>,
    /// Categories of the character.
    pub categories: Option<Vec<String>>,
    /// Files to exclude when publishing.
    pub exclude: Option<Vec<String>>,
    /// Files to publish even where an exclusion would drop them.
    pub included: Option<Vec<String>>,
    /// Can be used to prevent publishing the character.
    pub publish: Option<Vec<String>>,
    /// Overrides the default command declared by the container image.
    pub command: Option<String>,
    /// The image to launch, where the character is not built from source.
    pub image: Option<String>,
}

impl Character {
    /// The one-line rendering of a character: its name, a space, its repository.
    pub open spec fn spec_to_text(self) -> Seq<char> {
        self.name@ + " "@ + self.repository@
    }

    /// Renders the character as `<name> <repository>`.
    pub fn to_text(&self) -> (text: String)
        ensures
            text@ == self.spec_to_text(),
    {
        let mut text = String::from_str(self.name.as_str());
        text.append(" ");
        text.append(self.repository.as_str());
        text
    }
}

} // verus!
