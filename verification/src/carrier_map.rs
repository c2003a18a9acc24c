//! Carrier names: from the number of an autonomous system, or from a word
//! in the name of the organisation that runs it.

use crate::text::{
    ascii_lowered, ascii_lowered_chars, chars_contain, chars_of, contains_text, same_chars,
};
use vstd::prelude::*;

verus! {

/// The carrier that runs the autonomous system of the given number, where
/// the table knows it.
pub open spec fn asn_carrier(asn: u32) -> Option<Seq<char>> {
    match asn {
        // Mainland China
        4134 => Some("China Telecom Corporation Limited"@),
        4809 => Some("China Telecom Next Carrier Network (CN2)"@),
        4812 => Some("China Telecom Group Beijing Ltd"@),
        4811 => Some("China Telecom Group Guangdong Ltd"@),
        4816 => Some("China Unicom Corporation"@),
        4837 => Some("China Unicom Backbone Network"@),
        9929 => Some("China Unicom Global"@),
        9808 => Some("China Mobile Communications Group Co., Ltd."@),
        56040 => Some("China Mobile Communications Group Co., Ltd."@),
        24400 => Some("China Mobile Communications Group Co., Ltd."@),
        146788 => Some("China Broadcasting Network Co., Ltd."@),
        17621 => Some("China Unicom Beijing Province Network"@),
        17622 => Some("China Unicom Guangdong Province Network"@),
        17623 => Some("China Unicom Shanghai Province Network"@),
        23724 => Some("IDC China Telecommunications Corporation"@),
        // Hong Kong / Macau / Taiwan
        9304 => Some("HGC Global Communications Limited"@),
        4635 => Some("Hong Kong Broadband Network Ltd."@),
        3491 => Some("PCCW Global (Hong Kong Telecommunications)"@),
        4760 => Some("HKT Limited"@),
        9264 => Some("Hong Kong Telecom Global Data Centre"@),
        4609 => Some("CTM - Companhia de Telecomunicacoes de Macau, S.A.R.L."@),
        9694 => Some("HiNet, Chunghwa Telecom Co., Ltd."@),
        3462 => Some("Data Communication Business Group, Chunghwa Telecom Co., Ltd."@),
        4780 => Some("Far EasTone Telecommunications Co., Ltd."@),
        18182 => Some("Taiwan Mobile Co., Ltd."@),
        9924 => Some("Taiwan Fixed Network Co., Ltd."@),
        // United States
        701 => Some("Verizon Business"@),
        7018 => Some("AT&T Services, Inc."@),
        209 => Some("CenturyLink Communications, LLC"@),
        7922 => Some("Comcast Cable Communications, LLC"@),
        20001 => Some("Charter Communications"@),
        22773 => Some("Cox Communications, Inc."@),
        11492 => Some("Cable One, Inc. / Sparklight"@),
        20115 => Some("Charter Communications"@),
        21928 => Some("T-Mobile US, Inc."@),
        6167 => Some("Cellco Partnership (Verizon Wireless)"@),
        46606 => Some("Unified Layer"@),
        16509 => Some("Amazon.com, Inc. (AWS)"@),
        14618 => Some("Amazon.com, Inc."@),
        15169 => Some("Google LLC"@),
        8075 => Some("Microsoft Corporation"@),
        // United Kingdom
        5089 => Some("Virgin Media Limited"@),
        2856 => Some("British Telecommunications PLC"@),
        13285 => Some("TalkTalk Communications Limited"@),
        5413 => Some("Sky UK Limited"@),
        5607 => Some("Sky UK Limited"@),
        1273 => Some("Vodafone Limited"@),
        786 => Some("Jisc Services Limited"@),
        // Japan
        2516 => Some("KDDI CORPORATION"@),
        2497 => Some("Internet Initiative Japan Inc."@),
        4713 => Some("NTT Communications Corporation"@),
        17676 => Some("SOFTBANK Corp."@),
        9605 => Some("NTT DOCOMO, INC."@),
        4685 => Some("JCOM Co., Ltd."@),
        4725 => Some("ZTV Corporation"@),
        // Korea
        4766 => Some("Korea Telecom"@),
        9318 => Some("SK Broadband Co Ltd"@),
        3786 => Some("LG Uplus Corp."@),
        // Europe (major)
        3320 => Some("Deutsche Telekom AG"@),
        6805 => Some("Telefonica Germany GmbH & Co. OHG"@),
        3209 => Some("Vodafone GmbH"@),
        12322 => Some("Free SAS"@),
        3215 => Some("Orange S.A."@),
        5410 => Some("Bouygues Telecom S.A."@),
        3352 => Some("Telefonica de Espana, S.A.U."@),
        12479 => Some("Orange Espagne, S.A.U."@),
        3356 => Some("Lumen Technologies (Level 3)"@),
        6830 => Some("Liberty Global B.V."@),
        1200 => Some("Amsterdam Internet Exchange B.V."@),
        8455 => Some("A1 Telekom Austria AG"@),
        5617 => Some("Orange Polska S.A."@),
        1299 => Some("Arelion Sweden AB"@),
        1257 => Some("Tele2 Sverige AB"@),
        12779 => Some("IT.GATE S.p.A."@),
        3269 => Some("TIM S.p.A."@),
        16276 => Some("OVH SAS"@),
        9009 => Some("M247 Europe SRL"@),
        12741 => Some("Netia SA"@),
        31424 => Some("NETHINKS GmbH"@),
        6871 => Some("Plusnet GmbH"@),
        8220 => Some("Colt Technology Services Group Limited"@),
        24940 => Some("Hetzner Online GmbH"@),
        _ => None,
    }
}

/// The carrier that the organisation's name points to: the first of the
/// known words that stands in the name, capitals ignored.
pub open spec fn org_carrier(organization: Seq<char>) -> Option<Seq<char>> {
    let normalized = ascii_lowered(organization);
    if contains_text(normalized, "chinanet"@) {
        Some("China Telecom Corporation Limited"@)
    } else if contains_text(normalized, "china mobile"@) || contains_text(normalized, "cmnet"@) {
        Some("China Mobile Communications Group Co., Ltd."@)
    } else if contains_text(normalized, "china broadnet"@) || contains_text(
        normalized,
        "china broadcasting network"@,
    ) || contains_text(normalized, "chinabtn"@) {
        Some("China Broadcasting Network Co., Ltd."@)
    } else if contains_text(normalized, "china unicom"@) || contains_text(normalized, "cuii"@) {
        Some("China Unicom Corporation"@)
    } else if contains_text(normalized, "chunghwa"@) || contains_text(normalized, "hinet"@) {
        Some("Chunghwa Telecom Co., Ltd."@)
    } else if contains_text(normalized, "korea telecom"@) || normalized == "kt"@ {
        Some("Korea Telecom"@)
    } else {
        None
    }
}

/// The carrier's name: by the number where the table knows it, else by the
/// organisation's name.
pub open spec fn carrier_name(asn: Option<u32>, organization: Option<Seq<char>>) -> Option<
    Seq<char>,
> {
    match asn {
        Some(code) => match asn_carrier(code) {
            Some(name) => Some(name),
            None => match organization {
                Some(org) => org_carrier(org),
                None => None,
            },
        },
        None => match organization {
            Some(org) => org_carrier(org),
            None => None,
        },
    }
}

/// Whether `r` is the text `name`, or both are absent.
pub open spec fn names(r: Option<&'static str>, name: Option<Seq<char>>) -> bool {
    match r {
        Some(text) => name == Some(text@),
        None => name is None,
    }
}

/// The carrier's name for a number and an organisation, as far as they are
/// known.
pub fn resolve_carrier_name(asn: Option<u32>, organization: Option<&str>) -> (r: Option<
    &'static str,
>)
    ensures
        names(
            r,
            carrier_name(
                asn,
                match organization {
                    Some(org) => Some(org@),
                    None => None,
                },
            ),
        ),
{
    if let Some(code) = asn {
        if let Some(name) = lookup_asn(code) {
            return Some(name);
        }
    }
    match organization {
        Some(org) => lookup_org_keyword(org),
        None => None,
    }
}

/// The carrier that runs the autonomous system of the given number.
pub fn lookup_asn(asn: u32) -> (r: Option<&'static str>)
    ensures
        names(r, asn_carrier(asn)),
{
    match asn {
        // Mainland China
        4134 => Some("China Telecom Corporation Limited"),
        4809 => Some("China Telecom Next Carrier Network (CN2)"),
        4812 => Some("China Telecom Group Beijing Ltd"),
        4811 => Some("China Telecom Group Guangdong Ltd"),
        4816 => Some("China Unicom Corporation"),
        4837 => Some("China Unicom Backbone Network"),
        9929 => Some("China Unicom Global"),
        9808 => Some("China Mobile Communications Group Co., Ltd."),
        56040 => Some("China Mobile Communications Group Co., Ltd."),
        24400 => Some("China Mobile Communications Group Co., Ltd."),
        146788 => Some("China Broadcasting Network Co., Ltd."),
        17621 => Some("China Unicom Beijing Province Network"),
        17622 => Some("China Unicom Guangdong Province Network"),
        17623 => Some("China Unicom Shanghai Province Network"),
        23724 => Some("IDC China Telecommunications Corporation"),
        // Hong Kong / Macau / Taiwan
        9304 => Some("HGC Global Communications Limited"),
        4635 => Some("Hong Kong Broadband Network Ltd."),
        3491 => Some("PCCW Global (Hong Kong Telecommunications)"),
        4760 => Some("HKT Limited"),
        9264 => Some("Hong Kong Telecom Global Data Centre"),
        4609 => Some("CTM - Companhia de Telecomunicacoes de Macau, S.A.R.L."),
        9694 => Some("HiNet, Chunghwa Telecom Co., Ltd."),
        3462 => Some("Data Communication Business Group, Chunghwa Telecom Co., Ltd."),
        4780 => Some("Far EasTone Telecommunications Co., Ltd."),
        18182 => Some("Taiwan Mobile Co., Ltd."),
        9924 => Some("Taiwan Fixed Network Co., Ltd."),
        // United States
        701 => Some("Verizon Business"),
        7018 => Some("AT&T Services, Inc."),
        209 => Some("CenturyLink Communications, LLC"),
        7922 => Some("Comcast Cable Communications, LLC"),
        20001 => Some("Charter Communications"),
        22773 => Some("Cox Communications, Inc."),
        11492 => Some("Cable One, Inc. / Sparklight"),
        20115 => Some("Charter Communications"),
        21928 => Some("T-Mobile US, Inc."),
        6167 => Some("Cellco Partnership (Verizon Wireless)"),
        46606 => Some("Unified Layer"),
        16509 => Some("Amazon.com, Inc. (AWS)"),
        14618 => Some("Amazon.com, Inc."),
        15169 => Some("Google LLC"),
        8075 => Some("Microsoft Corporation"),
        // United Kingdom
        5089 => Some("Virgin Media Limited"),
        2856 => Some("British Telecommunications PLC"),
        13285 => Some("TalkTalk Communications Limited"),
        5413 => Some("Sky UK Limited"),
        5607 => Some("Sky UK Limited"),
        1273 => Some("Vodafone Limited"),
        786 => Some("Jisc Services Limited"),
        // Japan
        2516 => Some("KDDI CORPORATION"),
        2497 => Some("Internet Initiative Japan Inc."),
        4713 => Some("NTT Communications Corporation"),
        17676 => Some("SOFTBANK Corp."),
        9605 => Some("NTT DOCOMO, INC."),
        4685 => Some("JCOM Co., Ltd."),
        4725 => Some("ZTV Corporation"),
        // Korea
        4766 => Some("Korea Telecom"),
        9318 => Some("SK Broadband Co Ltd"),
        3786 => Some("LG Uplus Corp."),
        // Europe (major)
        3320 => Some("Deutsche Telekom AG"),
        6805 => Some("Telefonica Germany GmbH & Co. OHG"),
        3209 => Some("Vodafone GmbH"),
        12322 => Some("Free SAS"),
        3215 => Some("Orange S.A."),
        5410 => Some("Bouygues Telecom S.A."),
        3352 => Some("Telefonica de Espana, S.A.U."),
        12479 => Some("Orange Espagne, S.A.U."),
        3356 => Some("Lumen Technologies (Level 3)"),
        6830 => Some("Liberty Global B.V."),
        1200 => Some("Amsterdam Internet Exchange B.V."),
        8455 => Some("A1 Telekom Austria AG"),
        5617 => Some("Orange Polska S.A."),
        1299 => Some("Arelion Sweden AB"),
        1257 => Some("Tele2 Sverige AB"),
        12779 => Some("IT.GATE S.p.A."),
        3269 => Some("TIM S.p.A."),
        16276 => Some("OVH SAS"),
        9009 => Some("M247 Europe SRL"),
        12741 => Some("Netia SA"),
        31424 => Some("NETHINKS GmbH"),
        6871 => Some("Plusnet GmbH"),
        8220 => Some("Colt Technology Services Group Limited"),
        24940 => Some("Hetzner Online GmbH"),
        _ => None,
    }
}

/// The carrier that a word in the organisation's name points to.
pub fn lookup_org_keyword(organization: &str) -> (r: Option<&'static str>)
    ensures
        names(r, org_carrier(organization@)),
{
    let normalized = ascii_lowered_chars(organization);
    if chars_contain(&normalized, &chars_of("chinanet")) {
        return Some("China Telecom Corporation Limited");
    }
    if chars_contain(&normalized, &chars_of("china mobile")) || chars_contain(
        &normalized,
        &chars_of("cmnet"),
    ) {
        return Some("China Mobile Communications Group Co., Ltd.");
    }
    if chars_contain(&normalized, &chars_of("china broadnet")) || chars_contain(
        &normalized,
        &chars_of("china broadcasting network"),
    ) || chars_contain(&normalized, &chars_of("chinabtn")) {
        return Some("China Broadcasting Network Co., Ltd.");
    }
    if chars_contain(&normalized, &chars_of("china unicom")) || chars_contain(
        &normalized,
        &chars_of("cuii"),
    ) {
        return Some("China Unicom Corporation");
    }
    if chars_contain(&normalized, &chars_of("chunghwa")) || chars_contain(
        &normalized,
        &chars_of("hinet"),
    ) {
        return Some("Chunghwa Telecom Co., Ltd.");
    }
    if chars_contain(&normalized, &chars_of("korea telecom")) || same_chars(
        &normalized,
        &chars_of("kt"),
    ) {
        return Some("Korea Telecom");
    }
    None
}

} // verus!
