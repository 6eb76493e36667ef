//! The operating-system record: the long version string and the host name.
//! Both are required; the adapter fails if either is unobtainable.
use vstd::prelude::*;

verus! {

use crate::args::DisplayStyle;
use crate::component::Component;
use vstd::string::StringExecFns;

/// The mathematical value of an [`OSInfo`].
pub ghost struct OSInfoV {
    pub name: Seq<char>,
    pub host_name: Seq<char>,
}

/// A snapshot of the operating system's identity.
#[derive(Debug)]
pub struct OSInfo {
    pub name: String,
    pub host_name: String,
}

impl View for OSInfo {
    type V = OSInfoV;

    open spec fn view(&self) -> OSInfoV {
        OSInfoV { name: self.name@, host_name: self.host_name@ }
    }
}

impl Clone for OSInfo {
    fn clone(&self) -> (r: Self)
        ensures
            r == *self,
    {
        OSInfo { name: self.name.clone(), host_name: self.host_name.clone() }
    }
}

/// The report text of an operating-system record at the given tier: the
/// version string alone, and the host name from the `Detailed` tier on.
pub open spec fn spec_render_os(o: OSInfoV, style: DisplayStyle) -> Seq<char> {
    let minimal = "OS: "@ + o.name;
    if style == DisplayStyle::Detailed {
        minimal + "\n\t- Host name: "@ + o.host_name
    } else {
        minimal
    }
}

impl OSInfo {
    pub fn new(name: String, host_name: String) -> (r: OSInfo)
        ensures
            r@ == (OSInfoV { name: name@, host_name: host_name@ }),
    {
        OSInfo { name, host_name }
    }
}

impl Component for OSInfo {
    open spec fn spec_info(&self, style: DisplayStyle) -> Seq<char> {
        spec_render_os(self@, style)
    }

    fn get_info(&self, style: DisplayStyle) -> (r: String) {
        let mut s = String::from_str("OS: ");
        s.append(self.name.as_str());
        if style == DisplayStyle::Detailed {
            s.append("\n\t- Host name: ");
            s.append(self.host_name.as_str());
            proof {
                assert(s@ =~= self.spec_info(style));
            }
            s
        } else {
            proof {
                assert(s@ =~= self.spec_info(style));
            }
            s
        }
    }
}

} // verus!
