//! The Feishu source pack.
use vstd::prelude::*;

use crate::open_connector::error::OpenConnectorError;
use crate::open_connector::packs::loader;
use crate::open_connector::packs::loader::builtin;
use crate::open_connector::source_pack::SourcePack;

verus! {

/// The Feishu pack, given what its asset parsed to.
pub fn pack(parsed: &'static Result<SourcePack, String>) -> (r: Result<
    &'static SourcePack,
    OpenConnectorError,
>)
    ensures
        loader::is_builtin("feishu.yaml"@, *parsed, r),
{
    builtin("feishu.yaml", parsed)
}

} // verus!
