//! Reports of the database commands.
use crate::models::DamengDriverStatus;
use vstd::prelude::*;

verus! {

/// The report on the DM8 ODBC driver, from whether it was found installed.
pub fn check_dameng_driver(installed: bool) -> (r: DamengDriverStatus)
    ensures
        r.installed == installed,
        r.message@ == (if installed {
            "DM8 ODBC 驱动已安装"@
        } else {
            "未检测到 DM8 ODBC 驱动，请先安装驱动"@
        }),
{
    DamengDriverStatus {
        installed,
        message: if installed {
            String::from_str("DM8 ODBC 驱动已安装")
        } else {
            String::from_str("未检测到 DM8 ODBC 驱动，请先安装驱动")
        },
    }
}

} // verus!
