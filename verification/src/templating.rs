//! What the pages are filled with. Rendering is left to the caller.

use crate::config::{kib_to_bytes, IhaCdnConfig};
use crate::state::{humanize_bytes, humanized};
use crate::text::{decimal, decimal_digits, views};
use vstd::prelude::*;

verus! {

/// The retention policy as the front page shows it.
#[derive(Debug, Clone)]
pub struct TemplateIndexRetention {
    pub min_age: String,
    pub max_age: String,
}

/// What the front page shows.
#[derive(Debug, Clone)]
pub struct TemplateIndex {
    pub https_mode: bool,
    pub hostname: String,
    pub filesize_limit: Option<String>,
    pub blacklist_extensions: Vec<String>,
    pub blacklist_ctypes: Vec<String>,
    pub file_retention: Option<TemplateIndexRetention>,
}

/// The text of a paste, which goes into its page as it is.
#[derive(Debug, Clone)]
pub struct TemplateCodeData(pub String);

/// What the page of a paste shows.
#[derive(Debug, Clone)]
pub struct TemplatePaste {
    pub code_type: String,
    pub code_data: TemplateCodeData,
    pub file_id: String,
}

/// A template that is to be rendered as an HTML page.
#[derive(Debug, Clone)]
pub struct HtmlTemplate<T>(pub T);

/// A `TemplatePaste` as plain values.
pub struct TemplatePasteView {
    pub code_type: Seq<char>,
    pub code_data: Seq<char>,
    pub file_id: Seq<char>,
}

impl View for TemplateCodeData {
    type V = Seq<char>;

    open spec fn view(&self) -> Seq<char> {
        self.0@
    }
}

impl View for TemplatePaste {
    type V = TemplatePasteView;

    open spec fn view(&self) -> TemplatePasteView {
        TemplatePasteView {
            code_type: self.code_type@,
            code_data: self.code_data@,
            file_id: self.file_id@,
        }
    }
}

impl TemplateCodeData {
    pub fn new(code_data: String) -> (r: Self)
        ensures
            r@ == code_data@,
    {
        TemplateCodeData(code_data)
    }

    /// The text.
    pub fn as_str(&self) -> (r: &str)
        ensures
            r@ == self@,
    {
        self.0.as_str()
    }
}

impl<T> HtmlTemplate<T> {
    pub fn new(template: T) -> (r: Self)
        ensures
            r.0 == template,
    {
        HtmlTemplate(template)
    }
}

impl TemplateIndex {
    /// Whether the page shows what `config` holds: the size limit of
    /// everybody but administrators, in a form for people to read; the two
    /// block lists; and the retention ages, if there is a retention policy.
    pub open spec fn shows(&self, config: IhaCdnConfig) -> bool {
        &&& self.https_mode == config.https_mode
        &&& self.hostname@ == config.hostname@
        &&& match config.storage.filesize_limit {
            Some(kib) => self.filesize_limit matches Some(text) && text@ == humanized(
                kib_to_bytes(kib) as u64,
            ),
            None => self.filesize_limit is None,
        }
        &&& views(self.blacklist_extensions@) == views(config.blocklist.extensions@)
        &&& views(self.blacklist_ctypes@) == views(config.blocklist.content_types@)
        &&& if config.retention.enable {
            self.file_retention matches Some(ages) && ages.min_age@ == decimal_digits(
                config.retention.min_age as nat,
            ) && ages.max_age@ == decimal_digits(config.retention.max_age as nat)
        } else {
            self.file_retention is None
        }
    }

    /// What the front page shows of `config`.
    pub fn of_config(config: &IhaCdnConfig) -> (r: Self)
        requires
            config.storage.limits_fit(),
        ensures
            r.shows(*config),
    {
        let file_retention = if config.retention.enable {
            Some(
                TemplateIndexRetention {
                    min_age: decimal(config.retention.min_age),
                    max_age: decimal(config.retention.max_age),
                },
            )
        } else {
            None
        };
        let filesize_limit = match config.storage.filesize_limit {
            Some(kib) => Some(humanize_bytes(kib * 1024)),
            None => None,
        };
        TemplateIndex {
            https_mode: config.https_mode,
            hostname: config.hostname.clone(),
            filesize_limit,
            blacklist_extensions: copy_strings(&config.blocklist.extensions),
            blacklist_ctypes: copy_strings(&config.blocklist.content_types),
            file_retention,
        }
    }
}

/// A copy of `list`.
fn copy_strings(list: &Vec<String>) -> (r: Vec<String>)
    ensures
        views(r@) == views(list@),
{
    let mut r: Vec<String> = Vec::new();
    let mut i: usize = 0;
    while i < list.len()
        invariant
            i <= list.len(),
            r@.len() == i,
            forall|j: int| 0 <= j < i ==> r@[j]@ == list@[j]@,
        decreases list.len() - i,
    {
        r.push(list[i].clone());
        i += 1;
    }
    assert(views(r@) =~= views(list@));
    r
}

} // verus!
