//! Data versions of game versions.
//!
//! Since the version 18w47b the game jar states the data version of the
//! game, which worlds and option files are written with. For the versions
//! before it the data version is looked up here. Versions before 15w32a
//! have no data version.

use vstd::prelude::*;
use crate::text::str_eq;

verus! {

/// The data version of one of the versions after 1.20.1.
pub open spec fn after_1_20(version: Seq<char>) -> Option<i32> {
    if version == "23w33a"@ {
        Some(3570)
    } else if version == "23w32a"@ {
        Some(3569)
    } else if version == "23w31a"@ {
        Some(3467)
    } else {
        None
    }
}

fn find_after_1_20(version: &str) -> (r: Option<i32>)
    ensures
        r == after_1_20(version@),
{
    if str_eq(version, "23w33a") {
        Some(3570)
    } else if str_eq(version, "23w32a") {
        Some(3569)
    } else if str_eq(version, "23w31a") {
        Some(3467)
    } else {
        None
    }
}

/// The data version of one of the versions of the 1.20 cycle.
pub open spec fn cycle_1_20(version: Seq<char>) -> Option<i32> {
    if version == "1.20.1"@ {
        Some(3465)
    } else if version == "1.20.1 Release Candidate 1"@ {
        Some(3464)
    } else if version == "1.20"@ {
        Some(3463)
    } else if version == "1.20 Release Candidate 1"@ {
        Some(3462)
    } else if version == "1.20 Pre-release 7"@ {
        Some(3461)
    } else if version == "1.20 Pre-release 6"@ {
        Some(3460)
    } else if version == "1.20 Pre-release 5"@ {
        Some(3458)
    } else if version == "1.20 Pre-release 4"@ {
        Some(3457)
    } else if version == "1.20 Pre-release 3"@ {
        Some(3456)
    } else if version == "1.20 Pre-release 2"@ {
        Some(3455)
    } else if version == "1.20 Pre-release 1"@ {
        Some(3454)
    } else if version == "23w18a"@ {
        Some(3453)
    } else if version == "23w17a"@ {
        Some(3452)
    } else if version == "23w16a"@ {
        Some(3449)
    } else if version == "23w14a"@ {
        Some(3445)
    } else if version == "23w13a"@ {
        Some(3443)
    } else if version == "23w12a"@ {
        Some(3442)
    } else {
        None
    }
}

fn find_cycle_1_20(version: &str) -> (r: Option<i32>)
    ensures
        r == cycle_1_20(version@),
{
    if str_eq(version, "1.20.1") {
        Some(3465)
    } else if str_eq(version, "1.20.1 Release Candidate 1") {
        Some(3464)
    } else if str_eq(version, "1.20") {
        Some(3463)
    } else if str_eq(version, "1.20 Release Candidate 1") {
        Some(3462)
    } else if str_eq(version, "1.20 Pre-release 7") {
        Some(3461)
    } else if str_eq(version, "1.20 Pre-release 6") {
        Some(3460)
    } else if str_eq(version, "1.20 Pre-release 5") {
        Some(3458)
    } else if str_eq(version, "1.20 Pre-release 4") {
        Some(3457)
    } else if str_eq(version, "1.20 Pre-release 3") {
        Some(3456)
    } else if str_eq(version, "1.20 Pre-release 2") {
        Some(3455)
    } else if str_eq(version, "1.20 Pre-release 1") {
        Some(3454)
    } else if str_eq(version, "23w18a") {
        Some(3453)
    } else if str_eq(version, "23w17a") {
        Some(3452)
    } else if str_eq(version, "23w16a") {
        Some(3449)
    } else if str_eq(version, "23w14a") {
        Some(3445)
    } else if str_eq(version, "23w13a") {
        Some(3443)
    } else if str_eq(version, "23w12a") {
        Some(3442)
    } else {
        None
    }
}

/// The data version of one of the versions of the 1.19 cycle.
pub open spec fn cycle_1_19(version: Seq<char>) -> Option<i32> {
    if version == "1.19.4"@ {
        Some(3337)
    } else if version == "1.19.4 Release Candidate 3"@ {
        Some(3336)
    } else if version == "1.19.4 Release Candidate 2"@ {
        Some(3335)
    } else if version == "1.19.4 Release Candidate 1"@ {
        Some(3334)
    } else if version == "1.19.4 Pre-release 4"@ {
        Some(3333)
    } else if version == "1.19.4 Pre-release 3"@ {
        Some(3332)
    } else if version == "1.19.4 Pre-release 2"@ {
        Some(3331)
    } else if version == "1.19.4 Pre-release 1"@ {
        Some(3330)
    } else if version == "23w07a"@ {
        Some(3329)
    } else if version == "23w06a"@ {
        Some(3326)
    } else if version == "23w05a"@ {
        Some(3323)
    } else if version == "23w04a"@ {
        Some(3321)
    } else if version == "23w03a"@ {
        Some(3320)
    } else if version == "1.19.3"@ {
        Some(3218)
    } else if version == "1.19.3 Release Candidate 3"@ {
        Some(3217)
    } else if version == "1.19.3 Release Candidate 2"@ {
        Some(3216)
    } else if version == "1.19.3 Release Candidate 1"@ {
        Some(3215)
    } else if version == "1.19.3 Pre-release 3"@ {
        Some(3213)
    } else if version == "1.19.3 Pre-release 2"@ {
        Some(3212)
    } else if version == "1.19.3 Pre-release 1"@ {
        Some(3211)
    } else if version == "22w46a"@ {
        Some(3210)
    } else if version == "22w45a"@ {
        Some(3208)
    } else if version == "22w44a"@ {
        Some(3207)
    } else if version == "22w43a"@ {
        Some(3206)
    } else if version == "22w42a"@ {
        Some(3205)
    } else if version == "1.19.2"@ {
        Some(3120)
    } else if version == "1.19.2 Release Candidate 2"@ {
        Some(3119)
    } else if version == "1.19.2 Release Candidate 1"@ {
        Some(3118)
    } else if version == "1.19.1"@ {
        Some(3117)
    } else if version == "1.19.1 Release Candidate 3"@ {
        Some(3116)
    } else if version == "1.19.1 Release Candidate 2"@ {
        Some(3115)
    } else if version == "1.19.1 Pre-release 6"@ {
        Some(3114)
    } else if version == "1.19.1 Pre-release 5"@ {
        Some(3113)
    } else if version == "1.19.1 Pre-release 4"@ {
        Some(3112)
    } else if version == "1.19.1 Pre-release 3"@ {
        Some(3111)
    } else if version == "1.19.1 Pre-release 2"@ {
        Some(3110)
    } else if version == "1.19.1 Release Candidate 1"@ {
        Some(3109)
    } else if version == "1.19.1 Pre-release 1"@ {
        Some(3107)
    } else if version == "22w24a"@ {
        Some(3106)
    } else if version == "1.19"@ {
        Some(3105)
    } else if version == "1.19 Release Candidate 2"@ {
        Some(3104)
    } else if version == "1.19 Release Candidate 1"@ {
        Some(3103)
    } else if version == "1.19 Pre-release 5"@ {
        Some(3102)
    } else if version == "1.19 Pre-release 4"@ {
        Some(3101)
    } else if version == "1.19 Pre-release 3"@ {
        Some(3100)
    } else if version == "1.19 Pre-release 2"@ {
        Some(3099)
    } else if version == "1.19 Pre-release 1"@ {
        Some(3098)
    } else if version == "22w19a"@ {
        Some(3096)
    } else if version == "22w18a"@ {
        Some(3095)
    } else if version == "22w17a"@ {
        Some(3093)
    } else if version == "22w16b"@ {
        Some(3092)
    } else if version == "22w16a"@ {
        Some(3091)
    } else if version == "22w15a"@ {
        Some(3089)
    } else if version == "22w14a"@ {
        Some(3088)
    } else if version == "22w13a"@ {
        Some(3085)
    } else if version == "22w12a"@ {
        Some(3082)
    } else if version == "22w11a"@ {
        Some(3080)
    } else if version == "Deep Dark Experimental Snapshot 1"@ {
        Some(3066)
    } else {
        None
    }
}

fn find_cycle_1_19(version: &str) -> (r: Option<i32>)
    ensures
        r == cycle_1_19(version@),
{
    if str_eq(version, "1.19.4") {
        Some(3337)
    } else if str_eq(version, "1.19.4 Release Candidate 3") {
        Some(3336)
    } else if str_eq(version, "1.19.4 Release Candidate 2") {
        Some(3335)
    } else if str_eq(version, "1.19.4 Release Candidate 1") {
        Some(3334)
    } else if str_eq(version, "1.19.4 Pre-release 4") {
        Some(3333)
    } else if str_eq(version, "1.19.4 Pre-release 3") {
        Some(3332)
    } else if str_eq(version, "1.19.4 Pre-release 2") {
        Some(3331)
    } else if str_eq(version, "1.19.4 Pre-release 1") {
        Some(3330)
    } else if str_eq(version, "23w07a") {
        Some(3329)
    } else if str_eq(version, "23w06a") {
        Some(3326)
    } else if str_eq(version, "23w05a") {
        Some(3323)
    } else if str_eq(version, "23w04a") {
        Some(3321)
    } else if str_eq(version, "23w03a") {
        Some(3320)
    } else if str_eq(version, "1.19.3") {
        Some(3218)
    } else if str_eq(version, "1.19.3 Release Candidate 3") {
        Some(3217)
    } else if str_eq(version, "1.19.3 Release Candidate 2") {
        Some(3216)
    } else if str_eq(version, "1.19.3 Release Candidate 1") {
        Some(3215)
    } else if str_eq(version, "1.19.3 Pre-release 3") {
        Some(3213)
    } else if str_eq(version, "1.19.3 Pre-release 2") {
        Some(3212)
    } else if str_eq(version, "1.19.3 Pre-release 1") {
        Some(3211)
    } else if str_eq(version, "22w46a") {
        Some(3210)
    } else if str_eq(version, "22w45a") {
        Some(3208)
    } else if str_eq(version, "22w44a") {
        Some(3207)
    } else if str_eq(version, "22w43a") {
        Some(3206)
    } else if str_eq(version, "22w42a") {
        Some(3205)
    } else if str_eq(version, "1.19.2") {
        Some(3120)
    } else if str_eq(version, "1.19.2 Release Candidate 2") {
        Some(3119)
    } else if str_eq(version, "1.19.2 Release Candidate 1") {
        Some(3118)
    } else if str_eq(version, "1.19.1") {
        Some(3117)
    } else if str_eq(version, "1.19.1 Release Candidate 3") {
        Some(3116)
    } else if str_eq(version, "1.19.1 Release Candidate 2") {
        Some(3115)
    } else if str_eq(version, "1.19.1 Pre-release 6") {
        Some(3114)
    } else if str_eq(version, "1.19.1 Pre-release 5") {
        Some(3113)
    } else if str_eq(version, "1.19.1 Pre-release 4") {
        Some(3112)
    } else if str_eq(version, "1.19.1 Pre-release 3") {
        Some(3111)
    } else if str_eq(version, "1.19.1 Pre-release 2") {
        Some(3110)
    } else if str_eq(version, "1.19.1 Release Candidate 1") {
        Some(3109)
    } else if str_eq(version, "1.19.1 Pre-release 1") {
        Some(3107)
    } else if str_eq(version, "22w24a") {
        Some(3106)
    } else if str_eq(version, "1.19") {
        Some(3105)
    } else if str_eq(version, "1.19 Release Candidate 2") {
        Some(3104)
    } else if str_eq(version, "1.19 Release Candidate 1") {
        Some(3103)
    } else if str_eq(version, "1.19 Pre-release 5") {
        Some(3102)
    } else if str_eq(version, "1.19 Pre-release 4") {
        Some(3101)
    } else if str_eq(version, "1.19 Pre-release 3") {
        Some(3100)
    } else if str_eq(version, "1.19 Pre-release 2") {
        Some(3099)
    } else if str_eq(version, "1.19 Pre-release 1") {
        Some(3098)
    } else if str_eq(version, "22w19a") {
        Some(3096)
    } else if str_eq(version, "22w18a") {
        Some(3095)
    } else if str_eq(version, "22w17a") {
        Some(3093)
    } else if str_eq(version, "22w16b") {
        Some(3092)
    } else if str_eq(version, "22w16a") {
        Some(3091)
    } else if str_eq(version, "22w15a") {
        Some(3089)
    } else if str_eq(version, "22w14a") {
        Some(3088)
    } else if str_eq(version, "22w13a") {
        Some(3085)
    } else if str_eq(version, "22w12a") {
        Some(3082)
    } else if str_eq(version, "22w11a") {
        Some(3080)
    } else if str_eq(version, "Deep Dark Experimental Snapshot 1") {
        Some(3066)
    } else {
        None
    }
}

/// The data version of one of the versions of the 1.18 cycle.
pub open spec fn cycle_1_18(version: Seq<char>) -> Option<i32> {
    if version == "1.18.2"@ {
        Some(2975)
    } else if version == "1.18.2 Release Candidate 1"@ {
        Some(2974)
    } else if version == "1.18.2 Pre-release 3"@ {
        Some(2973)
    } else if version == "1.18.2 Pre-release 2"@ {
        Some(2972)
    } else if version == "1.18.2 Pre-release 1"@ {
        Some(2971)
    } else if version == "22w07a"@ {
        Some(2969)
    } else if version == "22w06a"@ {
        Some(2968)
    } else if version == "22w05a"@ {
        Some(2967)
    } else if version == "22w03a"@ {
        Some(2966)
    } else if version == "1.18.1"@ {
        Some(2865)
    } else if version == "1.18.1 Release Candidate 3"@ {
        Some(2864)
    } else if version == "1.18.1 Release Candidate 2"@ {
        Some(2863)
    } else if version == "1.18.1 Release Candidate 1"@ {
        Some(2862)
    } else if version == "1.18.1 Pre-release 1"@ {
        Some(2861)
    } else if version == "1.18"@ {
        Some(2860)
    } else if version == "1.18 Release Candidate 4"@ {
        Some(2859)
    } else if version == "1.18 Release Candidate 3"@ {
        Some(2858)
    } else if version == "1.18 Release Candidate 2"@ {
        Some(2857)
    } else if version == "1.18 Release Candidate 1"@ {
        Some(2856)
    } else if version == "1.18 Pre-release 8"@ {
        Some(2855)
    } else if version == "1.18 Pre-release 7"@ {
        Some(2854)
    } else if version == "1.18 Pre-release 6"@ {
        Some(2853)
    } else if version == "1.18 Pre-release 5"@ {
        Some(2851)
    } else if version == "1.18 Pre-release 4"@ {
        Some(2850)
    } else if version == "1.18 Pre-release 3"@ {
        Some(2849)
    } else if version == "1.18 Pre-release 2"@ {
        Some(2848)
    } else if version == "1.18 Pre-release 1"@ {
        Some(2847)
    } else if version == "21w44a"@ {
        Some(2845)
    } else if version == "21w43a"@ {
        Some(2844)
    } else if version == "21w42a"@ {
        Some(2840)
    } else if version == "21w41a"@ {
        Some(2839)
    } else if version == "21w40a"@ {
        Some(2838)
    } else if version == "21w39a"@ {
        Some(2836)
    } else if version == "21w38a"@ {
        Some(2835)
    } else if version == "21w37a"@ {
        Some(2834)
    } else if version == "1.18 experimental snapshot 7"@ {
        Some(2831)
    } else if version == "1.18 experimental snapshot 6"@ {
        Some(2830)
    } else if version == "1.18 experimental snapshot 5"@ {
        Some(2829)
    } else if version == "1.18 experimental snapshot 4"@ {
        Some(2828)
    } else if version == "1.18 experimental snapshot 3"@ {
        Some(2827)
    } else if version == "1.18 experimental snapshot 2"@ {
        Some(2826)
    } else if version == "1.18 Experimental Snapshot 1"@ {
        Some(2825)
    } else {
        None
    }
}

fn find_cycle_1_18(version: &str) -> (r: Option<i32>)
    ensures
        r == cycle_1_18(version@),
{
    if str_eq(version, "1.18.2") {
        Some(2975)
    } else if str_eq(version, "1.18.2 Release Candidate 1") {
        Some(2974)
    } else if str_eq(version, "1.18.2 Pre-release 3") {
        Some(2973)
    } else if str_eq(version, "1.18.2 Pre-release 2") {
        Some(2972)
    } else if str_eq(version, "1.18.2 Pre-release 1") {
        Some(2971)
    } else if str_eq(version, "22w07a") {
        Some(2969)
    } else if str_eq(version, "22w06a") {
        Some(2968)
    } else if str_eq(version, "22w05a") {
        Some(2967)
    } else if str_eq(version, "22w03a") {
        Some(2966)
    } else if str_eq(version, "1.18.1") {
        Some(2865)
    } else if str_eq(version, "1.18.1 Release Candidate 3") {
        Some(2864)
    } else if str_eq(version, "1.18.1 Release Candidate 2") {
        Some(2863)
    } else if str_eq(version, "1.18.1 Release Candidate 1") {
        Some(2862)
    } else if str_eq(version, "1.18.1 Pre-release 1") {
        Some(2861)
    } else if str_eq(version, "1.18") {
        Some(2860)
    } else if str_eq(version, "1.18 Release Candidate 4") {
        Some(2859)
    } else if str_eq(version, "1.18 Release Candidate 3") {
        Some(2858)
    } else if str_eq(version, "1.18 Release Candidate 2") {
        Some(2857)
    } else if str_eq(version, "1.18 Release Candidate 1") {
        Some(2856)
    } else if str_eq(version, "1.18 Pre-release 8") {
        Some(2855)
    } else if str_eq(version, "1.18 Pre-release 7") {
        Some(2854)
    } else if str_eq(version, "1.18 Pre-release 6") {
        Some(2853)
    } else if str_eq(version, "1.18 Pre-release 5") {
        Some(2851)
    } else if str_eq(version, "1.18 Pre-release 4") {
        Some(2850)
    } else if str_eq(version, "1.18 Pre-release 3") {
        Some(2849)
    } else if str_eq(version, "1.18 Pre-release 2") {
        Some(2848)
    } else if str_eq(version, "1.18 Pre-release 1") {
        Some(2847)
    } else if str_eq(version, "21w44a") {
        Some(2845)
    } else if str_eq(version, "21w43a") {
        Some(2844)
    } else if str_eq(version, "21w42a") {
        Some(2840)
    } else if str_eq(version, "21w41a") {
        Some(2839)
    } else if str_eq(version, "21w40a") {
        Some(2838)
    } else if str_eq(version, "21w39a") {
        Some(2836)
    } else if str_eq(version, "21w38a") {
        Some(2835)
    } else if str_eq(version, "21w37a") {
        Some(2834)
    } else if str_eq(version, "1.18 experimental snapshot 7") {
        Some(2831)
    } else if str_eq(version, "1.18 experimental snapshot 6") {
        Some(2830)
    } else if str_eq(version, "1.18 experimental snapshot 5") {
        Some(2829)
    } else if str_eq(version, "1.18 experimental snapshot 4") {
        Some(2828)
    } else if str_eq(version, "1.18 experimental snapshot 3") {
        Some(2827)
    } else if str_eq(version, "1.18 experimental snapshot 2") {
        Some(2826)
    } else if str_eq(version, "1.18 Experimental Snapshot 1") {
        Some(2825)
    } else {
        None
    }
}

/// The data version of one of the versions of the 1.17 cycle.
pub open spec fn cycle_1_17(version: Seq<char>) -> Option<i32> {
    if version == "1.17.1"@ {
        Some(2730)
    } else if version == "1.17.1 Release Candidate 2"@ {
        Some(2729)
    } else if version == "1.17.1 Release Candidate 1"@ {
        Some(2728)
    } else if version == "1.17.1 Pre-release 3"@ {
        Some(2727)
    } else if version == "1.17.1 Pre-release 2"@ {
        Some(2726)
    } else if version == "1.17.1 Pre-release 1"@ {
        Some(2725)
    } else if version == "1.17"@ {
        Some(2724)
    } else if version == "1.17 Release Candidate 2"@ {
        Some(2723)
    } else if version == "1.17 Release Candidate 1"@ {
        Some(2722)
    } else if version == "1.17 Pre-release 5"@ {
        Some(2721)
    } else if version == "1.17 Pre-release 4"@ {
        Some(2720)
    } else if version == "1.17 Pre-release 3"@ {
        Some(2719)
    } else if version == "1.17 Pre-release 2"@ {
        Some(2718)
    } else if version == "1.17 Pre-release 1"@ {
        Some(2716)
    } else if version == "21w20a"@ {
        Some(2715)
    } else if version == "21w19a"@ {
        Some(2714)
    } else if version == "21w18a"@ {
        Some(2713)
    } else if version == "21w17a"@ {
        Some(2712)
    } else if version == "21w16a"@ {
        Some(2711)
    } else if version == "21w15a"@ {
        Some(2709)
    } else if version == "21w14a"@ {
        Some(2706)
    } else if version == "21w13a"@ {
        Some(2705)
    } else if version == "21w11a"@ {
        Some(2703)
    } else if version == "21w10a"@ {
        Some(2699)
    } else if version == "21w08b"@ {
        Some(2698)
    } else if version == "21w08a"@ {
        Some(2697)
    } else if version == "21w07a"@ {
        Some(2695)
    } else if version == "21w06a"@ {
        Some(2694)
    } else if version == "21w05b"@ {
        Some(2692)
    } else if version == "21w05a"@ {
        Some(2690)
    } else if version == "21w03a"@ {
        Some(2689)
    } else if version == "20w51a"@ {
        Some(2687)
    } else if version == "20w49a"@ {
        Some(2685)
    } else if version == "20w48a"@ {
        Some(2683)
    } else if version == "20w46a"@ {
        Some(2682)
    } else if version == "20w45a"@ {
        Some(2681)
    } else if version == "Combat Test 8c"@ {
        Some(2707)
    } else if version == "Combat Test 8b"@ {
        Some(2706)
    } else if version == "Combat Test 8"@ {
        Some(2705)
    } else if version == "Combat Test 7c"@ {
        Some(2704)
    } else if version == "Combat Test 7b"@ {
        Some(2703)
    } else if version == "Combat Test 7"@ {
        Some(2702)
    } else if version == "Combat Test 6"@ {
        Some(2701)
    } else {
        None
    }
}

fn find_cycle_1_17(version: &str) -> (r: Option<i32>)
    ensures
        r == cycle_1_17(version@),
{
    if str_eq(version, "1.17.1") {
        Some(2730)
    } else if str_eq(version, "1.17.1 Release Candidate 2") {
        Some(2729)
    } else if str_eq(version, "1.17.1 Release Candidate 1") {
        Some(2728)
    } else if str_eq(version, "1.17.1 Pre-release 3") {
        Some(2727)
    } else if str_eq(version, "1.17.1 Pre-release 2") {
        Some(2726)
    } else if str_eq(version, "1.17.1 Pre-release 1") {
        Some(2725)
    } else if str_eq(version, "1.17") {
        Some(2724)
    } else if str_eq(version, "1.17 Release Candidate 2") {
        Some(2723)
    } else if str_eq(version, "1.17 Release Candidate 1") {
        Some(2722)
    } else if str_eq(version, "1.17 Pre-release 5") {
        Some(2721)
    } else if str_eq(version, "1.17 Pre-release 4") {
        Some(2720)
    } else if str_eq(version, "1.17 Pre-release 3") {
        Some(2719)
    } else if str_eq(version, "1.17 Pre-release 2") {
        Some(2718)
    } else if str_eq(version, "1.17 Pre-release 1") {
        Some(2716)
    } else if str_eq(version, "21w20a") {
        Some(2715)
    } else if str_eq(version, "21w19a") {
        Some(2714)
    } else if str_eq(version, "21w18a") {
        Some(2713)
    } else if str_eq(version, "21w17a") {
        Some(2712)
    } else if str_eq(version, "21w16a") {
        Some(2711)
    } else if str_eq(version, "21w15a") {
        Some(2709)
    } else if str_eq(version, "21w14a") {
        Some(2706)
    } else if str_eq(version, "21w13a") {
        Some(2705)
    } else if str_eq(version, "21w11a") {
        Some(2703)
    } else if str_eq(version, "21w10a") {
        Some(2699)
    } else if str_eq(version, "21w08b") {
        Some(2698)
    } else if str_eq(version, "21w08a") {
        Some(2697)
    } else if str_eq(version, "21w07a") {
        Some(2695)
    } else if str_eq(version, "21w06a") {
        Some(2694)
    } else if str_eq(version, "21w05b") {
        Some(2692)
    } else if str_eq(version, "21w05a") {
        Some(2690)
    } else if str_eq(version, "21w03a") {
        Some(2689)
    } else if str_eq(version, "20w51a") {
        Some(2687)
    } else if str_eq(version, "20w49a") {
        Some(2685)
    } else if str_eq(version, "20w48a") {
        Some(2683)
    } else if str_eq(version, "20w46a") {
        Some(2682)
    } else if str_eq(version, "20w45a") {
        Some(2681)
    } else if str_eq(version, "Combat Test 8c") {
        Some(2707)
    } else if str_eq(version, "Combat Test 8b") {
        Some(2706)
    } else if str_eq(version, "Combat Test 8") {
        Some(2705)
    } else if str_eq(version, "Combat Test 7c") {
        Some(2704)
    } else if str_eq(version, "Combat Test 7b") {
        Some(2703)
    } else if str_eq(version, "Combat Test 7") {
        Some(2702)
    } else if str_eq(version, "Combat Test 6") {
        Some(2701)
    } else {
        None
    }
}

/// The data version of one of the versions of the 1.16 cycle.
pub open spec fn cycle_1_16(version: Seq<char>) -> Option<i32> {
    if version == "1.16.5"@ {
        Some(2586)
    } else if version == "1.16.5 Release Candidate 1"@ {
        Some(2585)
    } else if version == "1.16.4"@ {
        Some(2584)
    } else if version == "1.16.4 Release Candidate 1"@ {
        Some(2583)
    } else if version == "1.16.4 Pre-release 2"@ {
        Some(2582)
    } else if version == "1.16.4 Pre-release 1"@ {
        Some(2581)
    } else if version == "1.16.3"@ {
        Some(2580)
    } else if version == "1.16.3 Release Candidate 1"@ {
        Some(2579)
    } else if version == "1.16.2"@ {
        Some(2578)
    } else if version == "1.16.2 Release Candidate 2"@ {
        Some(2577)
    } else if version == "1.16.2 Release Candidate 1"@ {
        Some(2576)
    } else if version == "1.16.2 Pre-release 3"@ {
        Some(2575)
    } else if version == "1.16.2 Pre-release 2"@ {
        Some(2574)
    } else if version == "1.16.2 Pre-release 1"@ {
        Some(2573)
    } else if version == "20w30a"@ {
        Some(2572)
    } else if version == "20w29a"@ {
        Some(2571)
    } else if version == "20w28a"@ {
        Some(2570)
    } else if version == "20w27a"@ {
        Some(2569)
    } else if version == "1.16.1"@ {
        Some(2567)
    } else if version == "1.16"@ {
        Some(2566)
    } else if version == "1.16 Release Candidate 1"@ {
        Some(2565)
    } else if version == "1.16 Pre-release 8"@ {
        Some(2564)
    } else if version == "1.16 Pre-release 7"@ {
        Some(2563)
    } else if version == "1.16 Pre-release 6"@ {
        Some(2562)
    } else if version == "1.16 Pre-release 5"@ {
        Some(2561)
    } else if version == "1.16 Pre-release 4"@ {
        Some(2560)
    } else if version == "1.16 Pre-release 3"@ {
        Some(2559)
    } else if version == "1.16 Pre-release 2"@ {
        Some(2557)
    } else if version == "1.16 Pre-release 1"@ {
        Some(2556)
    } else if version == "20w22a"@ {
        Some(2555)
    } else if version == "20w21a"@ {
        Some(2554)
    } else if version == "20w20b"@ {
        Some(2537)
    } else if version == "20w20a"@ {
        Some(2536)
    } else if version == "20w19a"@ {
        Some(2534)
    } else if version == "20w18a"@ {
        Some(2532)
    } else if version == "20w17a"@ {
        Some(2529)
    } else if version == "20w16a"@ {
        Some(2526)
    } else if version == "20w15a"@ {
        Some(2525)
    } else if version == "20w14a"@ {
        Some(2524)
    } else if version == "20w13b"@ {
        Some(2521)
    } else if version == "20w13a"@ {
        Some(2520)
    } else if version == "20w12a"@ {
        Some(2515)
    } else if version == "20w11a"@ {
        Some(2513)
    } else if version == "20w10a"@ {
        Some(2512)
    } else if version == "20w09a"@ {
        Some(2510)
    } else if version == "20w08a"@ {
        Some(2507)
    } else if version == "20w07a"@ {
        Some(2506)
    } else if version == "Snapshot 20w06a"@ {
        Some(2504)
    } else if version == "Combat Test 5"@ {
        Some(2321)
    } else if version == "Combat Test 4"@ {
        Some(2320)
    } else {
        None
    }
}

fn find_cycle_1_16(version: &str) -> (r: Option<i32>)
    ensures
        r == cycle_1_16(version@),
{
    if str_eq(version, "1.16.5") {
        Some(2586)
    } else if str_eq(version, "1.16.5 Release Candidate 1") {
        Some(2585)
    } else if str_eq(version, "1.16.4") {
        Some(2584)
    } else if str_eq(version, "1.16.4 Release Candidate 1") {
        Some(2583)
    } else if str_eq(version, "1.16.4 Pre-release 2") {
        Some(2582)
    } else if str_eq(version, "1.16.4 Pre-release 1") {
        Some(2581)
    } else if str_eq(version, "1.16.3") {
        Some(2580)
    } else if str_eq(version, "1.16.3 Release Candidate 1") {
        Some(2579)
    } else if str_eq(version, "1.16.2") {
        Some(2578)
    } else if str_eq(version, "1.16.2 Release Candidate 2") {
        Some(2577)
    } else if str_eq(version, "1.16.2 Release Candidate 1") {
        Some(2576)
    } else if str_eq(version, "1.16.2 Pre-release 3") {
        Some(2575)
    } else if str_eq(version, "1.16.2 Pre-release 2") {
        Some(2574)
    } else if str_eq(version, "1.16.2 Pre-release 1") {
        Some(2573)
    } else if str_eq(version, "20w30a") {
        Some(2572)
    } else if str_eq(version, "20w29a") {
        Some(2571)
    } else if str_eq(version, "20w28a") {
        Some(2570)
    } else if str_eq(version, "20w27a") {
        Some(2569)
    } else if str_eq(version, "1.16.1") {
        Some(2567)
    } else if str_eq(version, "1.16") {
        Some(2566)
    } else if str_eq(version, "1.16 Release Candidate 1") {
        Some(2565)
    } else if str_eq(version, "1.16 Pre-release 8") {
        Some(2564)
    } else if str_eq(version, "1.16 Pre-release 7") {
        Some(2563)
    } else if str_eq(version, "1.16 Pre-release 6") {
        Some(2562)
    } else if str_eq(version, "1.16 Pre-release 5") {
        Some(2561)
    } else if str_eq(version, "1.16 Pre-release 4") {
        Some(2560)
    } else if str_eq(version, "1.16 Pre-release 3") {
        Some(2559)
    } else if str_eq(version, "1.16 Pre-release 2") {
        Some(2557)
    } else if str_eq(version, "1.16 Pre-release 1") {
        Some(2556)
    } else if str_eq(version, "20w22a") {
        Some(2555)
    } else if str_eq(version, "20w21a") {
        Some(2554)
    } else if str_eq(version, "20w20b") {
        Some(2537)
    } else if str_eq(version, "20w20a") {
        Some(2536)
    } else if str_eq(version, "20w19a") {
        Some(2534)
    } else if str_eq(version, "20w18a") {
        Some(2532)
    } else if str_eq(version, "20w17a") {
        Some(2529)
    } else if str_eq(version, "20w16a") {
        Some(2526)
    } else if str_eq(version, "20w15a") {
        Some(2525)
    } else if str_eq(version, "20w14a") {
        Some(2524)
    } else if str_eq(version, "20w13b") {
        Some(2521)
    } else if str_eq(version, "20w13a") {
        Some(2520)
    } else if str_eq(version, "20w12a") {
        Some(2515)
    } else if str_eq(version, "20w11a") {
        Some(2513)
    } else if str_eq(version, "20w10a") {
        Some(2512)
    } else if str_eq(version, "20w09a") {
        Some(2510)
    } else if str_eq(version, "20w08a") {
        Some(2507)
    } else if str_eq(version, "20w07a") {
        Some(2506)
    } else if str_eq(version, "Snapshot 20w06a") {
        Some(2504)
    } else if str_eq(version, "Combat Test 5") {
        Some(2321)
    } else if str_eq(version, "Combat Test 4") {
        Some(2320)
    } else {
        None
    }
}

/// The data version of one of the versions of the 1.15 cycle.
pub open spec fn cycle_1_15(version: Seq<char>) -> Option<i32> {
    if version == "1.15.2"@ {
        Some(2230)
    } else if version == "1.15.2 Pre-release 2"@ {
        Some(2229)
    } else if version == "1.15.2 Pre-Release 1"@ {
        Some(2228)
    } else if version == "1.15.1"@ {
        Some(2227)
    } else if version == "1.15.1 Pre-release 1"@ {
        Some(2226)
    } else if version == "1.15"@ {
        Some(2225)
    } else if version == "1.15 Pre-release 7"@ {
        Some(2224)
    } else if version == "1.15 Pre-release 6"@ {
        Some(2223)
    } else if version == "1.15 Pre-release 5"@ {
        Some(2222)
    } else if version == "1.15 Pre-release 4"@ {
        Some(2221)
    } else if version == "1.15 Pre-release 3"@ {
        Some(2220)
    } else if version == "1.15 Pre-Release 2"@ {
        Some(2219)
    } else if version == "1.15 Pre-release 1"@ {
        Some(2218)
    } else if version == "19w46b"@ {
        Some(2217)
    } else if version == "19w46a"@ {
        Some(2216)
    } else if version == "19w45b"@ {
        Some(2215)
    } else if version == "19w45a"@ {
        Some(2214)
    } else if version == "19w44a"@ {
        Some(2213)
    } else if version == "19w42a"@ {
        Some(2212)
    } else if version == "19w41a"@ {
        Some(2210)
    } else if version == "19w40a"@ {
        Some(2208)
    } else if version == "19w39a"@ {
        Some(2207)
    } else if version == "19w38b"@ {
        Some(2206)
    } else if version == "19w38a"@ {
        Some(2205)
    } else if version == "19w37a"@ {
        Some(2204)
    } else if version == "19w36a"@ {
        Some(2203)
    } else if version == "19w35a"@ {
        Some(2201)
    } else if version == "19w34a"@ {
        Some(2200)
    } else if version == "Combat Test 3"@ {
        Some(2069)
    } else if version == "Combat Test 2"@ {
        Some(2068)
    } else {
        None
    }
}

fn find_cycle_1_15(version: &str) -> (r: Option<i32>)
    ensures
        r == cycle_1_15(version@),
{
    if str_eq(version, "1.15.2") {
        Some(2230)
    } else if str_eq(version, "1.15.2 Pre-release 2") {
        Some(2229)
    } else if str_eq(version, "1.15.2 Pre-Release 1") {
        Some(2228)
    } else if str_eq(version, "1.15.1") {
        Some(2227)
    } else if str_eq(version, "1.15.1 Pre-release 1") {
        Some(2226)
    } else if str_eq(version, "1.15") {
        Some(2225)
    } else if str_eq(version, "1.15 Pre-release 7") {
        Some(2224)
    } else if str_eq(version, "1.15 Pre-release 6") {
        Some(2223)
    } else if str_eq(version, "1.15 Pre-release 5") {
        Some(2222)
    } else if str_eq(version, "1.15 Pre-release 4") {
        Some(2221)
    } else if str_eq(version, "1.15 Pre-release 3") {
        Some(2220)
    } else if str_eq(version, "1.15 Pre-Release 2") {
        Some(2219)
    } else if str_eq(version, "1.15 Pre-release 1") {
        Some(2218)
    } else if str_eq(version, "19w46b") {
        Some(2217)
    } else if str_eq(version, "19w46a") {
        Some(2216)
    } else if str_eq(version, "19w45b") {
        Some(2215)
    } else if str_eq(version, "19w45a") {
        Some(2214)
    } else if str_eq(version, "19w44a") {
        Some(2213)
    } else if str_eq(version, "19w42a") {
        Some(2212)
    } else if str_eq(version, "19w41a") {
        Some(2210)
    } else if str_eq(version, "19w40a") {
        Some(2208)
    } else if str_eq(version, "19w39a") {
        Some(2207)
    } else if str_eq(version, "19w38b") {
        Some(2206)
    } else if str_eq(version, "19w38a") {
        Some(2205)
    } else if str_eq(version, "19w37a") {
        Some(2204)
    } else if str_eq(version, "19w36a") {
        Some(2203)
    } else if str_eq(version, "19w35a") {
        Some(2201)
    } else if str_eq(version, "19w34a") {
        Some(2200)
    } else if str_eq(version, "Combat Test 3") {
        Some(2069)
    } else if str_eq(version, "Combat Test 2") {
        Some(2068)
    } else {
        None
    }
}

/// The data version of one of the versions of the 1.14 cycle.
pub open spec fn cycle_1_14(version: Seq<char>) -> Option<i32> {
    if version == "1.14.3 - Combat Test"@ {
        Some(2067)
    } else if version == "1.14.4"@ {
        Some(1976)
    } else if version == "1.14.4 Pre-Release 7"@ {
        Some(1975)
    } else if version == "1.14.4 Pre-Release 6"@ {
        Some(1974)
    } else if version == "1.14.4 Pre-Release 5"@ {
        Some(1973)
    } else if version == "1.14.4 Pre-Release 4"@ {
        Some(1972)
    } else if version == "1.14.4 Pre-Release 3"@ {
        Some(1971)
    } else if version == "1.14.4 Pre-Release 2"@ {
        Some(1970)
    } else if version == "1.14.4 Pre-Release 1"@ {
        Some(1969)
    } else if version == "1.14.3"@ {
        Some(1968)
    } else if version == "1.14.3 Pre-Release 4"@ {
        Some(1967)
    } else if version == "1.14.3 Pre-Release 3"@ {
        Some(1966)
    } else if version == "1.14.3 Pre-Release 2"@ {
        Some(1965)
    } else if version == "1.14.3 Pre-Release 1"@ {
        Some(1964)
    } else if version == "1.14.2"@ {
        Some(1963)
    } else if version == "1.14.2 Pre-Release 4"@ {
        Some(1962)
    } else if version == "1.14.2 Pre-Release 3"@ {
        Some(1960)
    } else if version == "1.14.2 Pre-Release 2"@ {
        Some(1959)
    } else if version == "1.14.2 Pre-Release 1"@ {
        Some(1958)
    } else if version == "1.14.1"@ {
        Some(1957)
    } else if version == "1.14.1 Pre-Release 2"@ {
        Some(1956)
    } else if version == "1.14.1 Pre-Release 1"@ {
        Some(1955)
    } else if version == "1.14"@ {
        Some(1952)
    } else if version == "1.14 Pre-Release 5"@ {
        Some(1951)
    } else if version == "1.14 Pre-Release 4"@ {
        Some(1950)
    } else if version == "1.14 Pre-Release 3"@ {
        Some(1949)
    } else if version == "1.14 Pre-Release 2"@ {
        Some(1948)
    } else if version == "1.14 Pre-Release 1"@ {
        Some(1947)
    } else if version == "19w14b"@ {
        Some(1945)
    } else if version == "19w14a"@ {
        Some(1944)
    } else if version == "19w13b"@ {
        Some(1943)
    } else if version == "19w13a"@ {
        Some(1942)
    } else if version == "19w12b"@ {
        Some(1941)
    } else if version == "19w12a"@ {
        Some(1940)
    } else if version == "19w11b"@ {
        Some(1938)
    } else if version == "19w11a"@ {
        Some(1937)
    } else if version == "19w09a"@ {
        Some(1935)
    } else if version == "19w08b"@ {
        Some(1934)
    } else if version == "19w08a"@ {
        Some(1933)
    } else if version == "19w07a"@ {
        Some(1932)
    } else if version == "19w06a"@ {
        Some(1931)
    } else if version == "19w05a"@ {
        Some(1930)
    } else if version == "19w04b"@ {
        Some(1927)
    } else if version == "19w04a"@ {
        Some(1926)
    } else if version == "19w03c"@ {
        Some(1924)
    } else if version == "19w03b"@ {
        Some(1923)
    } else if version == "19w03a"@ {
        Some(1922)
    } else if version == "19w02a"@ {
        Some(1921)
    } else if version == "18w50a"@ {
        Some(1919)
    } else if version == "18w49a"@ {
        Some(1916)
    } else if version == "18w48b"@ {
        Some(1915)
    } else if version == "18w48a"@ {
        Some(1914)
    } else if version == "18w47b"@ {
        Some(1913)
    } else if version == "18w47a"@ {
        Some(1912)
    } else if version == "18w46a"@ {
        Some(1910)
    } else if version == "18w45a"@ {
        Some(1908)
    } else if version == "18w44a"@ {
        Some(1907)
    } else if version == "18w43c"@ {
        Some(1903)
    } else if version == "18w43b"@ {
        Some(1902)
    } else if version == "18w43a"@ {
        Some(1901)
    } else {
        None
    }
}

fn find_cycle_1_14(version: &str) -> (r: Option<i32>)
    ensures
        r == cycle_1_14(version@),
{
    if str_eq(version, "1.14.3 - Combat Test") {
        Some(2067)
    } else if str_eq(version, "1.14.4") {
        Some(1976)
    } else if str_eq(version, "1.14.4 Pre-Release 7") {
        Some(1975)
    } else if str_eq(version, "1.14.4 Pre-Release 6") {
        Some(1974)
    } else if str_eq(version, "1.14.4 Pre-Release 5") {
        Some(1973)
    } else if str_eq(version, "1.14.4 Pre-Release 4") {
        Some(1972)
    } else if str_eq(version, "1.14.4 Pre-Release 3") {
        Some(1971)
    } else if str_eq(version, "1.14.4 Pre-Release 2") {
        Some(1970)
    } else if str_eq(version, "1.14.4 Pre-Release 1") {
        Some(1969)
    } else if str_eq(version, "1.14.3") {
        Some(1968)
    } else if str_eq(version, "1.14.3 Pre-Release 4") {
        Some(1967)
    } else if str_eq(version, "1.14.3 Pre-Release 3") {
        Some(1966)
    } else if str_eq(version, "1.14.3 Pre-Release 2") {
        Some(1965)
    } else if str_eq(version, "1.14.3 Pre-Release 1") {
        Some(1964)
    } else if str_eq(version, "1.14.2") {
        Some(1963)
    } else if str_eq(version, "1.14.2 Pre-Release 4") {
        Some(1962)
    } else if str_eq(version, "1.14.2 Pre-Release 3") {
        Some(1960)
    } else if str_eq(version, "1.14.2 Pre-Release 2") {
        Some(1959)
    } else if str_eq(version, "1.14.2 Pre-Release 1") {
        Some(1958)
    } else if str_eq(version, "1.14.1") {
        Some(1957)
    } else if str_eq(version, "1.14.1 Pre-Release 2") {
        Some(1956)
    } else if str_eq(version, "1.14.1 Pre-Release 1") {
        Some(1955)
    } else if str_eq(version, "1.14") {
        Some(1952)
    } else if str_eq(version, "1.14 Pre-Release 5") {
        Some(1951)
    } else if str_eq(version, "1.14 Pre-Release 4") {
        Some(1950)
    } else if str_eq(version, "1.14 Pre-Release 3") {
        Some(1949)
    } else if str_eq(version, "1.14 Pre-Release 2") {
        Some(1948)
    } else if str_eq(version, "1.14 Pre-Release 1") {
        Some(1947)
    } else if str_eq(version, "19w14b") {
        Some(1945)
    } else if str_eq(version, "19w14a") {
        Some(1944)
    } else if str_eq(version, "19w13b") {
        Some(1943)
    } else if str_eq(version, "19w13a") {
        Some(1942)
    } else if str_eq(version, "19w12b") {
        Some(1941)
    } else if str_eq(version, "19w12a") {
        Some(1940)
    } else if str_eq(version, "19w11b") {
        Some(1938)
    } else if str_eq(version, "19w11a") {
        Some(1937)
    } else if str_eq(version, "19w09a") {
        Some(1935)
    } else if str_eq(version, "19w08b") {
        Some(1934)
    } else if str_eq(version, "19w08a") {
        Some(1933)
    } else if str_eq(version, "19w07a") {
        Some(1932)
    } else if str_eq(version, "19w06a") {
        Some(1931)
    } else if str_eq(version, "19w05a") {
        Some(1930)
    } else if str_eq(version, "19w04b") {
        Some(1927)
    } else if str_eq(version, "19w04a") {
        Some(1926)
    } else if str_eq(version, "19w03c") {
        Some(1924)
    } else if str_eq(version, "19w03b") {
        Some(1923)
    } else if str_eq(version, "19w03a") {
        Some(1922)
    } else if str_eq(version, "19w02a") {
        Some(1921)
    } else if str_eq(version, "18w50a") {
        Some(1919)
    } else if str_eq(version, "18w49a") {
        Some(1916)
    } else if str_eq(version, "18w48b") {
        Some(1915)
    } else if str_eq(version, "18w48a") {
        Some(1914)
    } else if str_eq(version, "18w47b") {
        Some(1913)
    } else if str_eq(version, "18w47a") {
        Some(1912)
    } else if str_eq(version, "18w46a") {
        Some(1910)
    } else if str_eq(version, "18w45a") {
        Some(1908)
    } else if str_eq(version, "18w44a") {
        Some(1907)
    } else if str_eq(version, "18w43c") {
        Some(1903)
    } else if str_eq(version, "18w43b") {
        Some(1902)
    } else if str_eq(version, "18w43a") {
        Some(1901)
    } else {
        None
    }
}

/// The data version of one of the versions of the 1.13 cycle.
pub open spec fn cycle_1_13(version: Seq<char>) -> Option<i32> {
    if version == "1.13.2"@ {
        Some(1631)
    } else if version == "1.13.2-pre2"@ {
        Some(1630)
    } else if version == "1.13.2-pre1"@ {
        Some(1629)
    } else if version == "1.13.1"@ {
        Some(1628)
    } else if version == "1.13.1-pre2"@ {
        Some(1627)
    } else if version == "1.13.1-pre1"@ {
        Some(1626)
    } else if version == "18w33a"@ {
        Some(1625)
    } else if version == "18w32a"@ {
        Some(1623)
    } else if version == "18w31a"@ {
        Some(1622)
    } else if version == "18w30b"@ {
        Some(1621)
    } else if version == "18w30a"@ {
        Some(1620)
    } else if version == "1.13"@ {
        Some(1519)
    } else if version == "1.13-pre10"@ {
        Some(1518)
    } else if version == "1.13-pre9"@ {
        Some(1517)
    } else if version == "1.13-pre8"@ {
        Some(1516)
    } else if version == "1.13-pre7"@ {
        Some(1513)
    } else if version == "1.13-pre6"@ {
        Some(1512)
    } else if version == "1.13-pre5"@ {
        Some(1511)
    } else if version == "1.13-pre4"@ {
        Some(1504)
    } else if version == "1.13-pre3"@ {
        Some(1503)
    } else if version == "1.13-pre2"@ {
        Some(1502)
    } else if version == "1.13-pre1"@ {
        Some(1501)
    } else if version == "18w22c"@ {
        Some(1499)
    } else if version == "18w22b"@ {
        Some(1498)
    } else if version == "18w22a"@ {
        Some(1497)
    } else if version == "18w21b"@ {
        Some(1496)
    } else if version == "18w21a"@ {
        Some(1495)
    } else if version == "18w20c"@ {
        Some(1493)
    } else if version == "18w20b"@ {
        Some(1491)
    } else if version == "18w20a"@ {
        Some(1489)
    } else if version == "18w19b"@ {
        Some(1485)
    } else if version == "18w19a"@ {
        Some(1484)
    } else if version == "18w16a"@ {
        Some(1483)
    } else if version == "18w15a"@ {
        Some(1482)
    } else if version == "18w14b"@ {
        Some(1481)
    } else if version == "18w14a"@ {
        Some(1479)
    } else if version == "18w11a"@ {
        Some(1478)
    } else if version == "18w10d"@ {
        Some(1477)
    } else if version == "18w10c"@ {
        Some(1476)
    } else if version == "18w10b"@ {
        Some(1474)
    } else if version == "18w10a"@ {
        Some(1473)
    } else if version == "18w09a"@ {
        Some(1472)
    } else if version == "18w08b"@ {
        Some(1471)
    } else if version == "18w08a"@ {
        Some(1470)
    } else if version == "18w07c"@ {
        Some(1469)
    } else if version == "18w07b"@ {
        Some(1468)
    } else if version == "18w07a"@ {
        Some(1467)
    } else if version == "18w06a"@ {
        Some(1466)
    } else if version == "18w05a"@ {
        Some(1464)
    } else if version == "18w03b"@ {
        Some(1463)
    } else if version == "18w03a"@ {
        Some(1462)
    } else if version == "18w02a"@ {
        Some(1461)
    } else if version == "18w01a"@ {
        Some(1459)
    } else if version == "17w50a"@ {
        Some(1457)
    } else if version == "17w49b"@ {
        Some(1455)
    } else if version == "17w49a"@ {
        Some(1454)
    } else if version == "17w48a"@ {
        Some(1453)
    } else if version == "17w47b"@ {
        Some(1452)
    } else if version == "17w47a"@ {
        Some(1451)
    } else if version == "17w46a"@ {
        Some(1449)
    } else if version == "17w45b"@ {
        Some(1448)
    } else if version == "17w45a"@ {
        Some(1447)
    } else if version == "17w43b"@ {
        Some(1445)
    } else if version == "17w43a"@ {
        Some(1444)
    } else {
        None
    }
}

fn find_cycle_1_13(version: &str) -> (r: Option<i32>)
    ensures
        r == cycle_1_13(version@),
{
    if str_eq(version, "1.13.2") {
        Some(1631)
    } else if str_eq(version, "1.13.2-pre2") {
        Some(1630)
    } else if str_eq(version, "1.13.2-pre1") {
        Some(1629)
    } else if str_eq(version, "1.13.1") {
        Some(1628)
    } else if str_eq(version, "1.13.1-pre2") {
        Some(1627)
    } else if str_eq(version, "1.13.1-pre1") {
        Some(1626)
    } else if str_eq(version, "18w33a") {
        Some(1625)
    } else if str_eq(version, "18w32a") {
        Some(1623)
    } else if str_eq(version, "18w31a") {
        Some(1622)
    } else if str_eq(version, "18w30b") {
        Some(1621)
    } else if str_eq(version, "18w30a") {
        Some(1620)
    } else if str_eq(version, "1.13") {
        Some(1519)
    } else if str_eq(version, "1.13-pre10") {
        Some(1518)
    } else if str_eq(version, "1.13-pre9") {
        Some(1517)
    } else if str_eq(version, "1.13-pre8") {
        Some(1516)
    } else if str_eq(version, "1.13-pre7") {
        Some(1513)
    } else if str_eq(version, "1.13-pre6") {
        Some(1512)
    } else if str_eq(version, "1.13-pre5") {
        Some(1511)
    } else if str_eq(version, "1.13-pre4") {
        Some(1504)
    } else if str_eq(version, "1.13-pre3") {
        Some(1503)
    } else if str_eq(version, "1.13-pre2") {
        Some(1502)
    } else if str_eq(version, "1.13-pre1") {
        Some(1501)
    } else if str_eq(version, "18w22c") {
        Some(1499)
    } else if str_eq(version, "18w22b") {
        Some(1498)
    } else if str_eq(version, "18w22a") {
        Some(1497)
    } else if str_eq(version, "18w21b") {
        Some(1496)
    } else if str_eq(version, "18w21a") {
        Some(1495)
    } else if str_eq(version, "18w20c") {
        Some(1493)
    } else if str_eq(version, "18w20b") {
        Some(1491)
    } else if str_eq(version, "18w20a") {
        Some(1489)
    } else if str_eq(version, "18w19b") {
        Some(1485)
    } else if str_eq(version, "18w19a") {
        Some(1484)
    } else if str_eq(version, "18w16a") {
        Some(1483)
    } else if str_eq(version, "18w15a") {
        Some(1482)
    } else if str_eq(version, "18w14b") {
        Some(1481)
    } else if str_eq(version, "18w14a") {
        Some(1479)
    } else if str_eq(version, "18w11a") {
        Some(1478)
    } else if str_eq(version, "18w10d") {
        Some(1477)
    } else if str_eq(version, "18w10c") {
        Some(1476)
    } else if str_eq(version, "18w10b") {
        Some(1474)
    } else if str_eq(version, "18w10a") {
        Some(1473)
    } else if str_eq(version, "18w09a") {
        Some(1472)
    } else if str_eq(version, "18w08b") {
        Some(1471)
    } else if str_eq(version, "18w08a") {
        Some(1470)
    } else if str_eq(version, "18w07c") {
        Some(1469)
    } else if str_eq(version, "18w07b") {
        Some(1468)
    } else if str_eq(version, "18w07a") {
        Some(1467)
    } else if str_eq(version, "18w06a") {
        Some(1466)
    } else if str_eq(version, "18w05a") {
        Some(1464)
    } else if str_eq(version, "18w03b") {
        Some(1463)
    } else if str_eq(version, "18w03a") {
        Some(1462)
    } else if str_eq(version, "18w02a") {
        Some(1461)
    } else if str_eq(version, "18w01a") {
        Some(1459)
    } else if str_eq(version, "17w50a") {
        Some(1457)
    } else if str_eq(version, "17w49b") {
        Some(1455)
    } else if str_eq(version, "17w49a") {
        Some(1454)
    } else if str_eq(version, "17w48a") {
        Some(1453)
    } else if str_eq(version, "17w47b") {
        Some(1452)
    } else if str_eq(version, "17w47a") {
        Some(1451)
    } else if str_eq(version, "17w46a") {
        Some(1449)
    } else if str_eq(version, "17w45b") {
        Some(1448)
    } else if str_eq(version, "17w45a") {
        Some(1447)
    } else if str_eq(version, "17w43b") {
        Some(1445)
    } else if str_eq(version, "17w43a") {
        Some(1444)
    } else {
        None
    }
}

/// The data version of one of the versions of the 1.12 cycle.
pub open spec fn cycle_1_12(version: Seq<char>) -> Option<i32> {
    if version == "1.12.2"@ {
        Some(1343)
    } else if version == "1.12.2-pre2"@ {
        Some(1342)
    } else if version == "1.12.2-pre1"@ {
        Some(1341)
    } else if version == "1.12.1"@ {
        Some(1241)
    } else if version == "1.12.1-pre1"@ {
        Some(1240)
    } else if version == "17w31a"@ {
        Some(1239)
    } else if version == "1.12"@ {
        Some(1139)
    } else if version == "1.12-pre7"@ {
        Some(1138)
    } else if version == "1.12-pre6"@ {
        Some(1137)
    } else if version == "1.12-pre5"@ {
        Some(1136)
    } else if version == "1.12-pre4"@ {
        Some(1135)
    } else if version == "1.12-pre3"@ {
        Some(1134)
    } else if version == "1.12-pre2"@ {
        Some(1133)
    } else if version == "1.12-pre1"@ {
        Some(1132)
    } else if version == "17w18b"@ {
        Some(1131)
    } else if version == "17w18a"@ {
        Some(1130)
    } else if version == "17w17b"@ {
        Some(1129)
    } else if version == "17w17a"@ {
        Some(1128)
    } else if version == "17w16b"@ {
        Some(1127)
    } else if version == "17w16a"@ {
        Some(1126)
    } else if version == "17w15a"@ {
        Some(1125)
    } else if version == "17w14a"@ {
        Some(1124)
    } else if version == "17w13b"@ {
        Some(1123)
    } else if version == "17w13a"@ {
        Some(1122)
    } else if version == "17w06a"@ {
        Some(1022)
    } else {
        None
    }
}

fn find_cycle_1_12(version: &str) -> (r: Option<i32>)
    ensures
        r == cycle_1_12(version@),
{
    if str_eq(version, "1.12.2") {
        Some(1343)
    } else if str_eq(version, "1.12.2-pre2") {
        Some(1342)
    } else if str_eq(version, "1.12.2-pre1") {
        Some(1341)
    } else if str_eq(version, "1.12.1") {
        Some(1241)
    } else if str_eq(version, "1.12.1-pre1") {
        Some(1240)
    } else if str_eq(version, "17w31a") {
        Some(1239)
    } else if str_eq(version, "1.12") {
        Some(1139)
    } else if str_eq(version, "1.12-pre7") {
        Some(1138)
    } else if str_eq(version, "1.12-pre6") {
        Some(1137)
    } else if str_eq(version, "1.12-pre5") {
        Some(1136)
    } else if str_eq(version, "1.12-pre4") {
        Some(1135)
    } else if str_eq(version, "1.12-pre3") {
        Some(1134)
    } else if str_eq(version, "1.12-pre2") {
        Some(1133)
    } else if str_eq(version, "1.12-pre1") {
        Some(1132)
    } else if str_eq(version, "17w18b") {
        Some(1131)
    } else if str_eq(version, "17w18a") {
        Some(1130)
    } else if str_eq(version, "17w17b") {
        Some(1129)
    } else if str_eq(version, "17w17a") {
        Some(1128)
    } else if str_eq(version, "17w16b") {
        Some(1127)
    } else if str_eq(version, "17w16a") {
        Some(1126)
    } else if str_eq(version, "17w15a") {
        Some(1125)
    } else if str_eq(version, "17w14a") {
        Some(1124)
    } else if str_eq(version, "17w13b") {
        Some(1123)
    } else if str_eq(version, "17w13a") {
        Some(1122)
    } else if str_eq(version, "17w06a") {
        Some(1022)
    } else {
        None
    }
}

/// The data version of one of the versions of the 1.11 cycle.
pub open spec fn cycle_1_11(version: Seq<char>) -> Option<i32> {
    if version == "1.11.2"@ {
        Some(922)
    } else if version == "1.11.1"@ {
        Some(921)
    } else if version == "16w50a"@ {
        Some(920)
    } else if version == "1.11"@ {
        Some(819)
    } else if version == "1.11-pre1"@ {
        Some(818)
    } else if version == "16w44a"@ {
        Some(817)
    } else if version == "16w43a"@ {
        Some(816)
    } else if version == "16w42a"@ {
        Some(815)
    } else if version == "16w41a"@ {
        Some(814)
    } else if version == "16w40a"@ {
        Some(813)
    } else if version == "16w39c"@ {
        Some(812)
    } else if version == "16w39b"@ {
        Some(811)
    } else if version == "16w39a"@ {
        Some(809)
    } else if version == "16w38a"@ {
        Some(807)
    } else if version == "16w36a"@ {
        Some(805)
    } else if version == "16w35a"@ {
        Some(803)
    } else if version == "16w33a"@ {
        Some(802)
    } else if version == "16w32b"@ {
        Some(801)
    } else if version == "16w32a"@ {
        Some(800)
    } else {
        None
    }
}

fn find_cycle_1_11(version: &str) -> (r: Option<i32>)
    ensures
        r == cycle_1_11(version@),
{
    if str_eq(version, "1.11.2") {
        Some(922)
    } else if str_eq(version, "1.11.1") {
        Some(921)
    } else if str_eq(version, "16w50a") {
        Some(920)
    } else if str_eq(version, "1.11") {
        Some(819)
    } else if str_eq(version, "1.11-pre1") {
        Some(818)
    } else if str_eq(version, "16w44a") {
        Some(817)
    } else if str_eq(version, "16w43a") {
        Some(816)
    } else if str_eq(version, "16w42a") {
        Some(815)
    } else if str_eq(version, "16w41a") {
        Some(814)
    } else if str_eq(version, "16w40a") {
        Some(813)
    } else if str_eq(version, "16w39c") {
        Some(812)
    } else if str_eq(version, "16w39b") {
        Some(811)
    } else if str_eq(version, "16w39a") {
        Some(809)
    } else if str_eq(version, "16w38a") {
        Some(807)
    } else if str_eq(version, "16w36a") {
        Some(805)
    } else if str_eq(version, "16w35a") {
        Some(803)
    } else if str_eq(version, "16w33a") {
        Some(802)
    } else if str_eq(version, "16w32b") {
        Some(801)
    } else if str_eq(version, "16w32a") {
        Some(800)
    } else {
        None
    }
}

/// The data version of one of the versions of the 1.10 cycle.
pub open spec fn cycle_1_10(version: Seq<char>) -> Option<i32> {
    if version == "1.10.2"@ {
        Some(512)
    } else if version == "1.10.1"@ {
        Some(511)
    } else if version == "1.10"@ {
        Some(510)
    } else if version == "1.10-pre2"@ {
        Some(507)
    } else if version == "1.10-pre1"@ {
        Some(506)
    } else if version == "16w21b"@ {
        Some(504)
    } else if version == "16w21a"@ {
        Some(503)
    } else if version == "16w20a"@ {
        Some(501)
    } else {
        None
    }
}

fn find_cycle_1_10(version: &str) -> (r: Option<i32>)
    ensures
        r == cycle_1_10(version@),
{
    if str_eq(version, "1.10.2") {
        Some(512)
    } else if str_eq(version, "1.10.1") {
        Some(511)
    } else if str_eq(version, "1.10") {
        Some(510)
    } else if str_eq(version, "1.10-pre2") {
        Some(507)
    } else if str_eq(version, "1.10-pre1") {
        Some(506)
    } else if str_eq(version, "16w21b") {
        Some(504)
    } else if str_eq(version, "16w21a") {
        Some(503)
    } else if str_eq(version, "16w20a") {
        Some(501)
    } else {
        None
    }
}

/// The data version of one of the versions of the 1.9 cycle.
pub open spec fn cycle_1_9(version: Seq<char>) -> Option<i32> {
    if version == "1.9.4"@ {
        Some(184)
    } else if version == "1.9.3"@ {
        Some(183)
    } else if version == "1.9.3-pre3"@ {
        Some(182)
    } else if version == "1.9.3-pre2"@ {
        Some(181)
    } else if version == "1.9.3-pre1"@ {
        Some(180)
    } else if version == "16w15b"@ {
        Some(179)
    } else if version == "16w15a"@ {
        Some(178)
    } else if version == "16w14a"@ {
        Some(177)
    } else if version == "1.9.2"@ {
        Some(176)
    } else if version == "1.9.1"@ {
        Some(175)
    } else if version == "1.9.1-pre3"@ {
        Some(172)
    } else if version == "1.9.1-pre2"@ {
        Some(171)
    } else if version == "1.9.1-pre1"@ {
        Some(170)
    } else if version == "1.9"@ {
        Some(169)
    } else if version == "1.9-pre4"@ {
        Some(168)
    } else if version == "1.9-pre3"@ {
        Some(167)
    } else if version == "1.9-pre2"@ {
        Some(165)
    } else if version == "1.9-pre1"@ {
        Some(164)
    } else if version == "16w07b"@ {
        Some(163)
    } else if version == "16w07a"@ {
        Some(162)
    } else if version == "16w06a"@ {
        Some(161)
    } else if version == "16w05b"@ {
        Some(160)
    } else if version == "16w05a"@ {
        Some(159)
    } else if version == "16w04a"@ {
        Some(158)
    } else if version == "16w03a"@ {
        Some(157)
    } else if version == "16w02a"@ {
        Some(156)
    } else if version == "15w51b"@ {
        Some(155)
    } else if version == "15w51a"@ {
        Some(154)
    } else if version == "15w50a"@ {
        Some(153)
    } else if version == "15w49b"@ {
        Some(152)
    } else if version == "15w49a"@ {
        Some(151)
    } else if version == "15w47c"@ {
        Some(150)
    } else if version == "15w47b"@ {
        Some(149)
    } else if version == "15w47a"@ {
        Some(148)
    } else if version == "15w46a"@ {
        Some(146)
    } else if version == "15w45a"@ {
        Some(145)
    } else if version == "15w44b"@ {
        Some(143)
    } else if version == "15w44a"@ {
        Some(142)
    } else if version == "15w43c"@ {
        Some(141)
    } else if version == "15w43b"@ {
        Some(140)
    } else if version == "15w43a"@ {
        Some(139)
    } else if version == "15w42a"@ {
        Some(138)
    } else if version == "15w41b"@ {
        Some(137)
    } else if version == "15w41a"@ {
        Some(136)
    } else if version == "15w40b"@ {
        Some(134)
    } else if version == "15w40a"@ {
        Some(133)
    } else if version == "15w39c"@ {
        Some(132)
    } else if version == "15w39b"@ {
        Some(131)
    } else if version == "15w39a"@ {
        Some(130)
    } else if version == "15w38b"@ {
        Some(129)
    } else if version == "15w38a"@ {
        Some(128)
    } else if version == "15w37a"@ {
        Some(127)
    } else if version == "15w36d"@ {
        Some(126)
    } else if version == "15w36c"@ {
        Some(125)
    } else if version == "15w36b"@ {
        Some(124)
    } else if version == "15w36a"@ {
        Some(123)
    } else if version == "15w35e"@ {
        Some(122)
    } else if version == "15w35d"@ {
        Some(121)
    } else if version == "15w35c"@ {
        Some(120)
    } else if version == "15w35b"@ {
        Some(119)
    } else if version == "15w35a"@ {
        Some(118)
    } else if version == "15w34d"@ {
        Some(117)
    } else if version == "15w34c"@ {
        Some(116)
    } else if version == "15w34b"@ {
        Some(115)
    } else if version == "15w34a"@ {
        Some(114)
    } else if version == "15w33c"@ {
        Some(112)
    } else if version == "15w33b"@ {
        Some(111)
    } else if version == "15w33a"@ {
        Some(111)
    } else if version == "15w32c"@ {
        Some(104)
    } else if version == "15w32b"@ {
        Some(103)
    } else if version == "15w32a"@ {
        Some(100)
    } else {
        None
    }
}

fn find_cycle_1_9(version: &str) -> (r: Option<i32>)
    ensures
        r == cycle_1_9(version@),
{
    if str_eq(version, "1.9.4") {
        Some(184)
    } else if str_eq(version, "1.9.3") {
        Some(183)
    } else if str_eq(version, "1.9.3-pre3") {
        Some(182)
    } else if str_eq(version, "1.9.3-pre2") {
        Some(181)
    } else if str_eq(version, "1.9.3-pre1") {
        Some(180)
    } else if str_eq(version, "16w15b") {
        Some(179)
    } else if str_eq(version, "16w15a") {
        Some(178)
    } else if str_eq(version, "16w14a") {
        Some(177)
    } else if str_eq(version, "1.9.2") {
        Some(176)
    } else if str_eq(version, "1.9.1") {
        Some(175)
    } else if str_eq(version, "1.9.1-pre3") {
        Some(172)
    } else if str_eq(version, "1.9.1-pre2") {
        Some(171)
    } else if str_eq(version, "1.9.1-pre1") {
        Some(170)
    } else if str_eq(version, "1.9") {
        Some(169)
    } else if str_eq(version, "1.9-pre4") {
        Some(168)
    } else if str_eq(version, "1.9-pre3") {
        Some(167)
    } else if str_eq(version, "1.9-pre2") {
        Some(165)
    } else if str_eq(version, "1.9-pre1") {
        Some(164)
    } else if str_eq(version, "16w07b") {
        Some(163)
    } else if str_eq(version, "16w07a") {
        Some(162)
    } else if str_eq(version, "16w06a") {
        Some(161)
    } else if str_eq(version, "16w05b") {
        Some(160)
    } else if str_eq(version, "16w05a") {
        Some(159)
    } else if str_eq(version, "16w04a") {
        Some(158)
    } else if str_eq(version, "16w03a") {
        Some(157)
    } else if str_eq(version, "16w02a") {
        Some(156)
    } else if str_eq(version, "15w51b") {
        Some(155)
    } else if str_eq(version, "15w51a") {
        Some(154)
    } else if str_eq(version, "15w50a") {
        Some(153)
    } else if str_eq(version, "15w49b") {
        Some(152)
    } else if str_eq(version, "15w49a") {
        Some(151)
    } else if str_eq(version, "15w47c") {
        Some(150)
    } else if str_eq(version, "15w47b") {
        Some(149)
    } else if str_eq(version, "15w47a") {
        Some(148)
    } else if str_eq(version, "15w46a") {
        Some(146)
    } else if str_eq(version, "15w45a") {
        Some(145)
    } else if str_eq(version, "15w44b") {
        Some(143)
    } else if str_eq(version, "15w44a") {
        Some(142)
    } else if str_eq(version, "15w43c") {
        Some(141)
    } else if str_eq(version, "15w43b") {
        Some(140)
    } else if str_eq(version, "15w43a") {
        Some(139)
    } else if str_eq(version, "15w42a") {
        Some(138)
    } else if str_eq(version, "15w41b") {
        Some(137)
    } else if str_eq(version, "15w41a") {
        Some(136)
    } else if str_eq(version, "15w40b") {
        Some(134)
    } else if str_eq(version, "15w40a") {
        Some(133)
    } else if str_eq(version, "15w39c") {
        Some(132)
    } else if str_eq(version, "15w39b") {
        Some(131)
    } else if str_eq(version, "15w39a") {
        Some(130)
    } else if str_eq(version, "15w38b") {
        Some(129)
    } else if str_eq(version, "15w38a") {
        Some(128)
    } else if str_eq(version, "15w37a") {
        Some(127)
    } else if str_eq(version, "15w36d") {
        Some(126)
    } else if str_eq(version, "15w36c") {
        Some(125)
    } else if str_eq(version, "15w36b") {
        Some(124)
    } else if str_eq(version, "15w36a") {
        Some(123)
    } else if str_eq(version, "15w35e") {
        Some(122)
    } else if str_eq(version, "15w35d") {
        Some(121)
    } else if str_eq(version, "15w35c") {
        Some(120)
    } else if str_eq(version, "15w35b") {
        Some(119)
    } else if str_eq(version, "15w35a") {
        Some(118)
    } else if str_eq(version, "15w34d") {
        Some(117)
    } else if str_eq(version, "15w34c") {
        Some(116)
    } else if str_eq(version, "15w34b") {
        Some(115)
    } else if str_eq(version, "15w34a") {
        Some(114)
    } else if str_eq(version, "15w33c") {
        Some(112)
    } else if str_eq(version, "15w33b") {
        Some(111)
    } else if str_eq(version, "15w33a") {
        Some(111)
    } else if str_eq(version, "15w32c") {
        Some(104)
    } else if str_eq(version, "15w32b") {
        Some(103)
    } else if str_eq(version, "15w32a") {
        Some(100)
    } else {
        None
    }
}

/// The data version of a version before 18w47b: that of the cycle of
/// versions that it belongs to.
pub open spec fn old_data_version(version: Seq<char>) -> Option<i32> {
    if after_1_20(version) is Some {
        after_1_20(version)
    } else if cycle_1_20(version) is Some {
        cycle_1_20(version)
    } else if cycle_1_19(version) is Some {
        cycle_1_19(version)
    } else if cycle_1_18(version) is Some {
        cycle_1_18(version)
    } else if cycle_1_17(version) is Some {
        cycle_1_17(version)
    } else if cycle_1_16(version) is Some {
        cycle_1_16(version)
    } else if cycle_1_15(version) is Some {
        cycle_1_15(version)
    } else if cycle_1_14(version) is Some {
        cycle_1_14(version)
    } else if cycle_1_13(version) is Some {
        cycle_1_13(version)
    } else if cycle_1_12(version) is Some {
        cycle_1_12(version)
    } else if cycle_1_11(version) is Some {
        cycle_1_11(version)
    } else if cycle_1_10(version) is Some {
        cycle_1_10(version)
    } else if cycle_1_9(version) is Some {
        cycle_1_9(version)
    } else {
        None
    }
}

/// Get the data version for versions before 18w47b that do not include it
/// in the version.json. Versions before 15w32a do not have a data version.
pub fn get_old_data_version(mc_version: &str) -> (r: Option<i32>)
    ensures
        r == old_data_version(mc_version@),
{
    if let Some(version) = find_after_1_20(mc_version) {
        return Some(version);
    }
    if let Some(version) = find_cycle_1_20(mc_version) {
        return Some(version);
    }
    if let Some(version) = find_cycle_1_19(mc_version) {
        return Some(version);
    }
    if let Some(version) = find_cycle_1_18(mc_version) {
        return Some(version);
    }
    if let Some(version) = find_cycle_1_17(mc_version) {
        return Some(version);
    }
    if let Some(version) = find_cycle_1_16(mc_version) {
        return Some(version);
    }
    if let Some(version) = find_cycle_1_15(mc_version) {
        return Some(version);
    }
    if let Some(version) = find_cycle_1_14(mc_version) {
        return Some(version);
    }
    if let Some(version) = find_cycle_1_13(mc_version) {
        return Some(version);
    }
    if let Some(version) = find_cycle_1_12(mc_version) {
        return Some(version);
    }
    if let Some(version) = find_cycle_1_11(mc_version) {
        return Some(version);
    }
    if let Some(version) = find_cycle_1_10(mc_version) {
        return Some(version);
    }
    if let Some(version) = find_cycle_1_9(mc_version) {
        return Some(version);
    }
    None
}

/// Format for the version.json file in the game jar.
#[derive(Debug, Clone, Copy, PartialEq, Eq, Structural)]
pub struct VersionJson {
    /// The data version number for this version, used for worlds,
    /// options.txt, etc.
    pub data_version: i32,
}

/// The data version of a version: the one that its game jar states, where
/// it states one, and else the known one.
pub open spec fn data_version_of(stated: Option<VersionJson>, version: Seq<char>) -> Option<i32> {
    match stated {
        Some(json) => Some(json.data_version),
        None => old_data_version(version),
    }
}

/// Get the game data version either from what the game jar states or the
/// known map.
pub fn get_data_version(stated: Option<VersionJson>, mc_version: &str) -> (r: Option<i32>)
    ensures
        r == data_version_of(stated, mc_version@),
{
    match stated {
        Some(json) => Some(json.data_version),
        None => get_old_data_version(mc_version),
    }
}

} // verus!
