//! Complete IL2CPP layouts measured from specific Unity players.
//!
//! Each function describes one architecture of one measured player. Pass a
//! profile directly to [`Module::attach`](super::Module::attach) when the
//! target game is known.

use vstd::prelude::*;

use super::builds::{build_table, builds};
use super::offsets::Profile;

verus! {

/// Unity 2018.4.36f1, file version `2018.4.36.54151`, x86-64.
pub fn unity_2018_4_36f1_x86_64() -> (p: Profile)
    ensures
        p == build_table()[0].profile,
{
    builds()[0].profile
}

/// Unity 2018.4.36f1, file version `2018.4.36.54151`, x86.
pub fn unity_2018_4_36f1_x86() -> (p: Profile)
    ensures
        p == build_table()[1].profile,
{
    builds()[1].profile
}

/// Unity 2019.1.0f2, file version `2019.1.0.11155`, x86-64.
pub fn unity_2019_1_0f2_x86_64() -> (p: Profile)
    ensures
        p == build_table()[2].profile,
{
    builds()[2].profile
}

/// Unity 2019.1.0f2, file version `2019.1.0.11155`, x86.
pub fn unity_2019_1_0f2_x86() -> (p: Profile)
    ensures
        p == build_table()[3].profile,
{
    builds()[3].profile
}

/// Unity 2019.4.41f2, file version `2019.4.41.9172`, x86-64.
pub fn unity_2019_4_41f2_x86_64() -> (p: Profile)
    ensures
        p == build_table()[4].profile,
{
    builds()[4].profile
}

/// Unity 2019.4.41f2, file version `2019.4.41.9172`, x86.
pub fn unity_2019_4_41f2_x86() -> (p: Profile)
    ensures
        p == build_table()[5].profile,
{
    builds()[5].profile
}

/// Unity 2020.1.18f1, file version `2020.1.18.38512`, x86-64.
pub fn unity_2020_1_18f1_x86_64() -> (p: Profile)
    ensures
        p == build_table()[6].profile,
{
    builds()[6].profile
}

/// Unity 2020.1.18f1, file version `2020.1.18.38512`, x86.
pub fn unity_2020_1_18f1_x86() -> (p: Profile)
    ensures
        p == build_table()[7].profile,
{
    builds()[7].profile
}

/// Unity 2020.2.0f1, file version `2020.2.0.8671`, x86-64.
pub fn unity_2020_2_0f1_x86_64() -> (p: Profile)
    ensures
        p == build_table()[8].profile,
{
    builds()[8].profile
}

/// Unity 2020.2.0f1, file version `2020.2.0.8671`, x86.
pub fn unity_2020_2_0f1_x86() -> (p: Profile)
    ensures
        p == build_table()[9].profile,
{
    builds()[9].profile
}

/// Unity 2021.3.11f1, file version `2021.3.11.23713`, x86-64.
pub fn unity_2021_3_11f1_x86_64() -> (p: Profile)
    ensures
        p == build_table()[10].profile,
{
    builds()[10].profile
}

/// Unity 2021.3.11f1, file version `2021.3.11.23713`, x86.
pub fn unity_2021_3_11f1_x86() -> (p: Profile)
    ensures
        p == build_table()[11].profile,
{
    builds()[11].profile
}

/// Unity 2022.3.0f1, file version `2022.3.0.4507`, x86-64.
pub fn unity_2022_3_0f1_x86_64() -> (p: Profile)
    ensures
        p == build_table()[12].profile,
{
    builds()[12].profile
}

/// Unity 2022.3.0f1, file version `2022.3.0.4507`, x86.
pub fn unity_2022_3_0f1_x86() -> (p: Profile)
    ensures
        p == build_table()[13].profile,
{
    builds()[13].profile
}

/// Unity 2023.1.0f1, file version `2023.1.0.2298`, x86-64.
pub fn unity_2023_1_0f1_x86_64() -> (p: Profile)
    ensures
        p == build_table()[14].profile,
{
    builds()[14].profile
}

/// Unity 2023.1.0f1, file version `2023.1.0.2298`, x86.
pub fn unity_2023_1_0f1_x86() -> (p: Profile)
    ensures
        p == build_table()[15].profile,
{
    builds()[15].profile
}

/// Unity 2023.1.22f1, file version `2023.1.22.16744`, x86-64.
pub fn unity_2023_1_22f1_x86_64() -> (p: Profile)
    ensures
        p == build_table()[16].profile,
{
    builds()[16].profile
}

/// Unity 2023.1.22f1, file version `2023.1.22.16744`, x86.
pub fn unity_2023_1_22f1_x86() -> (p: Profile)
    ensures
        p == build_table()[17].profile,
{
    builds()[17].profile
}

/// Unity 6000.2.12f1, file version `6000.2.12.40285`, x86-64.
pub fn unity_6000_2_12f1_x86_64() -> (p: Profile)
    ensures
        p == build_table()[18].profile,
{
    builds()[18].profile
}

/// Unity 6000.2.12f1, file version `6000.2.12.40285`, x86.
pub fn unity_6000_2_12f1_x86() -> (p: Profile)
    ensures
        p == build_table()[19].profile,
{
    builds()[19].profile
}

/// Unity 6000.3.21f1, file version `6000.3.21.9777`, x86-64.
pub fn unity_6000_3_21f1_x86_64() -> (p: Profile)
    ensures
        p == build_table()[20].profile,
{
    builds()[20].profile
}

/// Unity 6000.3.21f1, file version `6000.3.21.9777`, x86.
pub fn unity_6000_3_21f1_x86() -> (p: Profile)
    ensures
        p == build_table()[21].profile,
{
    builds()[21].profile
}

/// Unity 6000.5.10f1, file version `6000.5.10.54518`, x86-64.
pub fn unity_6000_5_10f1_x86_64() -> (p: Profile)
    ensures
        p == build_table()[22].profile,
{
    builds()[22].profile
}

/// Unity 6000.5.10f1, file version `6000.5.10.54518`, x86.
pub fn unity_6000_5_10f1_x86() -> (p: Profile)
    ensures
        p == build_table()[23].profile,
{
    builds()[23].profile
}

/// Unity 6000.6.0f1, file version `6000.6.0.63725`, x86-64.
pub fn unity_6000_6_0f1_x86_64() -> (p: Profile)
    ensures
        p == build_table()[24].profile,
{
    builds()[24].profile
}

/// Unity 6000.6.0f1, file version `6000.6.0.63725`, x86.
pub fn unity_6000_6_0f1_x86() -> (p: Profile)
    ensures
        p == build_table()[25].profile,
{
    builds()[25].profile
}

/// Unity 6000.7.0a3, file version `6000.7.0.5476`, x86-64.
pub fn unity_6000_7_0a3_x86_64() -> (p: Profile)
    ensures
        p == build_table()[26].profile,
{
    builds()[26].profile
}

/// Unity 6000.7.0a3, file version `6000.7.0.5476`, x86.
pub fn unity_6000_7_0a3_x86() -> (p: Profile)
    ensures
        p == build_table()[27].profile,
{
    builds()[27].profile
}

} // verus!
