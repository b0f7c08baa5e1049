use vstd::prelude::*;

use crate::simulator::text_option;
use crate::text::{is_marked_active, marked_active, nth_token, token, version_from_output, version_of};
use crate::utils::{size_text, Utils};

verus! {

/// One installed toolchain as the inventory reports it.
#[derive(Debug)]
pub struct RustInfo {
    pub name: String,
    pub size: u64,
    pub is_active: bool,
    pub version: Option<String>,
}

/// What the caller found for one toolchain directory: its name, the size
/// measured under it, and the output of its compiler's `--version`, when
/// the compiler exists, ran and printed UTF-8.
pub struct ToolchainEntry {
    pub name: String,
    pub size: u64,
    pub version_output: Option<String>,
}

/// The fields of a `RustInfo` as mathematical values.
pub struct RustRecord {
    pub name: Seq<char>,
    pub size: u64,
    pub is_active: bool,
    pub version: Option<Seq<char>>,
}

impl View for RustInfo {
    type V = RustRecord;

    open spec fn view(&self) -> RustRecord {
        RustRecord {
            name: self.name@,
            size: self.size,
            is_active: self.is_active,
            version: text_option(self.version),
        }
    }
}

/// The inventory item for a toolchain directory, given the active
/// toolchain's name when it is known.
pub open spec fn toolchain_record(e: ToolchainEntry, active: Option<Seq<char>>) -> RustRecord {
    RustRecord {
        name: e.name@,
        size: e.size,
        is_active: marked_active(e.name@, active),
        version: version_of(text_option(e.version_output)),
    }
}

/// The text an item is offered under for deletion: its name and its size.
pub open spec fn labelled(name: Seq<char>, size: u64) -> Seq<char> {
    name + seq![' ', '('] + size_text(size as nat) + seq![')']
}

/// Builds `name (size)`.
pub fn size_label(name: &String, size: u64) -> (r: String)
    ensures
        r@ == labelled(name@, size),
{
    let mut out = name.clone();
    out.append(" (");
    out.append(Utils::format_size(size).as_str());
    out.append(")");
    proof {
        reveal_strlit(" (");
        reveal_strlit(")");
        assert(out@ =~= labelled(name@, size));
    }
    out
}

/// The toolchain backend.
pub struct Rust;

impl Rust {
    /// The active toolchain named by the manager's `show active-toolchain`
    /// output: its first token.
    pub fn active_toolchain(output: &str) -> (r: Option<String>)
        ensures
            text_option(r) == token(output@, 0),
    {
        nth_token(output, 0)
    }

    /// The toolchain inventory. Without the toolchain manager there is none;
    /// otherwise one item per toolchain directory, in the order given, marked
    /// active when the active toolchain's name occurs in its own.
    pub fn get_rust_versions(
        manager_found: bool,
        active: &Option<String>,
        toolchains: &Vec<ToolchainEntry>,
    ) -> (r: Vec<RustInfo>)
        ensures
            !manager_found ==> r@.len() == 0,
            manager_found ==> r@.len() == toolchains@.len(),
            manager_found ==> forall|k: int|
                0 <= k < r@.len() ==> #[trigger] r@[k]@ == toolchain_record(
                    toolchains@[k],
                    text_option(*active),
                ),
    {
        let mut out: Vec<RustInfo> = Vec::new();
        if !manager_found {
            return out;
        }
        let mut i: usize = 0;
        while i < toolchains.len()
            invariant
                i <= toolchains@.len(),
                out@.len() == i,
                forall|k: int|
                    0 <= k < i ==> #[trigger] out@[k]@ == toolchain_record(
                        toolchains@[k],
                        text_option(*active),
                    ),
            decreases toolchains@.len() - i,
        {
            let e = &toolchains[i];
            out.push(
                RustInfo {
                    name: e.name.clone(),
                    size: e.size,
                    is_active: is_marked_active(&e.name, active),
                    version: version_from_output(&e.version_output),
                },
            );
            i = i + 1;
        }
        out
    }

    /// The text a toolchain is offered under for deletion.
    pub fn selection_label(info: &RustInfo) -> (r: String)
        ensures
            r@ == labelled(info.name@, info.size),
    {
        size_label(&info.name, info.size)
    }
}

} // verus!
