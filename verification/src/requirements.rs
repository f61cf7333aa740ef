//! The tools that the work needs, and whether the host has them.

use crate::device::{DeviceError, DeviceErrorView};
use crate::host::on_search_path;
use crate::protocol::view_result;
use crate::text::{joined, same_text};
use vstd::prelude::*;

verus! {

/// The tool that grows a filesystem of the type named `fs_type`; `None` for
/// a type that cannot be grown. The name is taken as written.
pub open spec fn tool_for(fs_type: Seq<char>) -> Option<Seq<char>> {
    if fs_type == "ext4"@ || fs_type == "ext3"@ || fs_type == "ext2"@ {
        Some("resize2fs"@)
    } else if fs_type == "xfs"@ {
        Some("xfs_growfs"@)
    } else if fs_type == "btrfs"@ {
        Some("btrfs"@)
    } else {
        None
    }
}

/// The tools that the work on filesystems of these types needs: the two that
/// every device needs, then those of the types in the order of their first
/// mention, each once.
pub open spec fn tools_needed(fs_types: Seq<Seq<char>>) -> Seq<Seq<char>>
    decreases fs_types.len(),
{
    if fs_types.len() == 0 {
        seq!["lsblk"@, "growpart"@]
    } else {
        let before = tools_needed(fs_types.drop_last());
        match tool_for(fs_types.last()) {
            Some(tool) => if before.contains(tool) {
                before
            } else {
                before.push(tool)
            },
            None => before,
        }
    }
}

/// The texts of a list of string slices.
pub open spec fn names(items: Seq<&str>) -> Seq<Seq<char>> {
    Seq::new(items.len(), |i: int| items[i]@)
}

/// The texts of a list of strings.
pub open spec fn texts(items: Seq<String>) -> Seq<Seq<char>> {
    Seq::new(items.len(), |i: int| items[i]@)
}

/// The tool that grows a filesystem of the type named `fs_type`.
pub fn tool_of(fs_type: &str) -> (tool: Option<String>)
    ensures
        tool.deep_view() == tool_for(fs_type@),
{
    if same_text(fs_type, "ext4") || same_text(fs_type, "ext3") || same_text(fs_type, "ext2") {
        Some("resize2fs".to_owned())
    } else if same_text(fs_type, "xfs") {
        Some("xfs_growfs".to_owned())
    } else if same_text(fs_type, "btrfs") {
        Some("btrfs".to_owned())
    } else {
        None
    }
}

/// Whether `tool` is among `tools`.
pub fn lists_tool(tools: &Vec<String>, tool: &str) -> (b: bool)
    ensures
        b == texts(tools@).contains(tool@),
{
    let mut i: usize = 0;
    while i < tools.len()
        invariant
            i <= tools.len(),
            forall|j: int| 0 <= j < i ==> texts(tools@)[j] != tool@,
        decreases tools.len() - i,
    {
        if same_text(tools[i].as_str(), tool) {
            assert(texts(tools@)[i as int] == tool@);
            return true;
        }
        i += 1;
    }
    false
}

/// The tools that the work on filesystems of these types needs, or the
/// error that names the first type that cannot be grown.
pub fn required_tools(fs_types: &[&str]) -> (r: Result<Vec<String>, DeviceError>)
    ensures
        match r {
            Ok(tools) => {
                &&& forall|i: int| 0 <= i < fs_types@.len() ==> tool_for(fs_types@[i]@) is Some
                &&& texts(tools@) == tools_needed(names(fs_types@))
            },
            Err(e) => exists|i: int|
                {
                    &&& 0 <= i < fs_types@.len()
                    &&& tool_for(#[trigger] fs_types@[i]@) is None
                    &&& forall|j: int| 0 <= j < i ==> tool_for(fs_types@[j]@) is Some
                    &&& e@ == DeviceErrorView::MissingTool(
                        "Unsupported filesystem: "@ + fs_types@[i]@,
                    )
                },
        },
{
    let mut tools: Vec<String> = Vec::new();
    tools.push("lsblk".to_owned());
    tools.push("growpart".to_owned());
    assert(texts(tools@) =~= tools_needed(names(fs_types@).take(0)));
    let mut i: usize = 0;
    while i < fs_types.len()
        invariant
            i <= fs_types@.len(),
            forall|j: int| 0 <= j < i ==> tool_for(fs_types@[j]@) is Some,
            texts(tools@) == tools_needed(names(fs_types@).take(i as int)),
        decreases fs_types.len() - i,
    {
        let fs_type: &str = fs_types[i];
        proof {
            let upto = names(fs_types@).take(i + 1);
            assert(upto.drop_last() =~= names(fs_types@).take(i as int));
        }
        match tool_of(fs_type) {
            Some(tool) => {
                if !lists_tool(&tools, tool.as_str()) {
                    tools.push(tool);
                }
            },
            None => {
                return Err(DeviceError::MissingTool(joined("Unsupported filesystem: ", fs_type)));
            },
        }
        i += 1;
    }
    assert(names(fs_types@).take(i as int) =~= names(fs_types@));
    Ok(tools)
}

/// The tool that is first reported missing: `Ok` where `found` says of each
/// tool that it is there. The two lists go by position.
pub open spec fn tools_verdict(tools: Seq<Seq<char>>, found: Seq<bool>) -> Result<
    (),
    DeviceErrorView,
>
    decreases tools.len(),
{
    if tools.len() == 0 || found.len() == 0 {
        Ok(())
    } else if !found[0] {
        Err(DeviceErrorView::MissingTool(tools[0]))
    } else {
        tools_verdict(tools.drop_first(), found.drop_first())
    }
}

/// Decides, from what the search for each tool gave, whether the host has
/// all of them.
pub fn check_tools(tools: &Vec<String>, found: &Vec<bool>) -> (r: Result<(), DeviceError>)
    ensures
        view_result(r) == tools_verdict(texts(tools@), found@),
{
    let mut i: usize = 0;
    proof {
        assert(texts(tools@).skip(0) =~= texts(tools@));
        assert(found@.skip(0) =~= found@);
    }
    while i < tools.len() && i < found.len()
        invariant
            i <= tools.len(),
            i <= found.len(),
            tools_verdict(texts(tools@), found@) == tools_verdict(
                texts(tools@).skip(i as int),
                found@.skip(i as int),
            ),
        decreases tools.len() - i,
    {
        proof {
            assert(texts(tools@).skip(i as int).drop_first() =~= texts(tools@).skip(i + 1));
            assert(found@.skip(i as int).drop_first() =~= found@.skip(i + 1));
        }
        if !found[i] {
            return Err(DeviceError::MissingTool(tools[i].clone()));
        }
        i += 1;
    }
    Ok(())
}

/// Checks that the host has the tools that the work on filesystems of these
/// types needs. A type that cannot be grown is an error before any tool is
/// looked for. Whether a tool is there is for the host to say: the result is
/// the verdict on what the search gave, tool by tool.
pub fn check_requirements(fs_types: &[&str]) -> (r: Result<(), DeviceError>)
    ensures
        (exists|i: int| 0 <= i < fs_types@.len() && tool_for(#[trigger] fs_types@[i]@) is None)
            ==> exists|i: int|
            {
                &&& 0 <= i < fs_types@.len()
                &&& tool_for(#[trigger] fs_types@[i]@) is None
                &&& forall|j: int| 0 <= j < i ==> tool_for(fs_types@[j]@) is Some
                &&& view_result(r) == Err::<(), DeviceErrorView>(
                    DeviceErrorView::MissingTool("Unsupported filesystem: "@ + fs_types@[i]@),
                )
            },
        (forall|i: int| 0 <= i < fs_types@.len() ==> tool_for(#[trigger] fs_types@[i]@) is Some)
            ==> exists|found: Seq<bool>|
            {
                &&& found.len() == tools_needed(names(fs_types@)).len()
                &&& view_result(r) == #[trigger] tools_verdict(
                    tools_needed(names(fs_types@)),
                    found,
                )
            },
{
    let tools = match required_tools(fs_types) {
        Ok(tools) => tools,
        Err(e) => {
            return Err(e);
        },
    };
    let mut found: Vec<bool> = Vec::new();
    let mut i: usize = 0;
    while i < tools.len()
        invariant
            i <= tools.len(),
            found.len() == i,
        decreases tools.len() - i,
    {
        found.push(on_search_path(tools[i].as_str()));
        i += 1;
    }
    check_tools(&tools, &found)
}

} // verus!
