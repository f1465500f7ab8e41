use vstd::prelude::*;
use crate::strutil::join_seq;
use crate::strutil::keep_nonempty;
use crate::strutil::nonempty_from;
use crate::strutil::skip_clamped;
use crate::strutil::split_char;
use crate::strutil::split_str;

verus! {

/// A license as the external SPDX database describes it: its
/// identifier, its standard header (possibly empty) and its full text.
#[derive(Debug)]
pub struct LicenseDescriptor {
    /// The SPDX identifier, e.g. `MIT`.
    pub id: String,
    /// The standard license header, or empty when the database has none.
    pub header: String,
    /// The full license text as the database stores it.
    pub full_text: String,
}

/// The mathematical value of a [`LicenseDescriptor`].
pub struct SpdxEntry {
    pub id: Seq<char>,
    pub header: Seq<char>,
    pub text: Seq<char>,
}

impl View for LicenseDescriptor {
    type V = SpdxEntry;

    open spec fn view(&self) -> SpdxEntry {
        SpdxEntry { id: self.id@, header: self.header@, text: self.full_text@ }
    }
}

/// What the license database answers for an identifier: the fixed
/// descriptor compiled into it, or nothing for an unknown identifier.
pub uninterp spec fn spdx_lookup(id: Seq<char>) -> Option<SpdxEntry>;

/// Relies on the license crate: `str::parse::<&dyn license::License>`
/// looks an SPDX identifier up in a fixed compiled-in table, so the
/// outcome depends on the identifier alone; the table is keyed by the
/// exact identifier and each entry answers it back as its id; `MIT`,
/// `Apache-2.0` and `GPL-3.0` are entries of that table.
#[verifier::external_body]
pub(crate) fn lookup_license(id: &str) -> (r: Option<LicenseDescriptor>)
    ensures
        (r is Some) == (spdx_lookup(id@) is Some),
        (r matches Some(d) ==> d.id@ == id@),
        (r matches Some(d) ==> spdx_lookup(id@) == Some(
            SpdxEntry { id: d.id@, header: d.header@, text: d.full_text@ },
        )),
        id@ == "MIT"@ ==> r is Some,
        id@ == "Apache-2.0"@ ==> r is Some,
        id@ == "GPL-3.0"@ ==> r is Some,
{
    match id.parse::<&dyn license::License>() {
        Ok(l) => Some(
            LicenseDescriptor {
                id: l.id().to_owned(),
                header: match l.header() {
                    Some(h) => h.to_owned(),
                    None => String::new(),
                },
                full_text: l.text().to_owned(),
            },
        ),
        Err(_) => None,
    }
}

/// The lines of a license body once its two-line preamble is dropped
/// and empty lines are removed.
pub open spec fn license_body_lines(text: Seq<char>) -> Seq<Seq<char>> {
    keep_nonempty(skip_clamped(split_char(text, '\n'), 2))
}

/// The license body as one text: its surviving lines joined by newlines.
pub open spec fn license_body_text(text: Seq<char>) -> Seq<char> {
    join_seq(license_body_lines(text), "\n"@)
}

/// The non-empty lines of `full_text` after its first two lines.
pub fn license_body(full_text: &str) -> (r: Vec<String>)
    ensures
        r.deep_view() == license_body_lines(full_text@),
{
    let lines = split_str(full_text, '\n');
    nonempty_from(&lines, 2)
}


} // verus!
