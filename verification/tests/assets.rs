use web::amount::Amount;
use web::auth::{StoreError, PUBLIC_SERVER_ERROR};
use web::assets::{
    asset_kind, asset_kind_label, asset_name, optional_money, optional_u32, optional_year,
    ensure_open, parse_asset, public_store_error, required_money, required_u32, AssetKind, AssetStart,
};

const LARGEST: u64 = 1_000_000_000_000;
const LONGEST: u32 = 100;

#[test]
fn money_is_positive_and_bounded_unless_zero_is_allowed() {
    assert!(required_money("0", "มูลค่า", LARGEST).is_err());
    assert_eq!(
        required_money("1000000000001", "มูลค่า", LARGEST),
        Err("มูลค่าอยู่นอกขอบเขตที่ระบบคำนวณได้".to_string())
    );
    assert_eq!(
        required_money("100,000", "ราคาซื้อ", LARGEST),
        Ok(Amount { negative: false, magnitude: 100_000, scale: 0 })
    );
    assert_eq!(required_money("  ", "ราคาซื้อ", LARGEST), Err("กรุณากรอกราคาซื้อ".to_string()));
    assert_eq!(
        optional_money("0", "มูลค่าคงเหลือ", true, LARGEST),
        Ok(Some(Amount { negative: false, magnitude: 0, scale: 0 }))
    );
    assert_eq!(optional_money("", "มูลค่าคงเหลือ", true, LARGEST), Ok(None));
    assert_eq!(
        optional_money("สิบ", "มูลค่าคงเหลือ", true, LARGEST),
        Err("มูลค่าคงเหลือต้องเป็นตัวเลข".to_string())
    );
}

#[test]
fn years_are_whole_and_bounded() {
    assert_eq!(optional_u32(" 5 ", "อายุใช้งาน", 100), Ok(Some(5)));
    assert_eq!(optional_u32("", "อายุใช้งาน", 100), Ok(None));
    assert_eq!(
        optional_u32("2.5", "อายุใช้งาน", 100),
        Err("อายุใช้งานต้องเป็นจำนวนปีเต็ม".to_string())
    );
    assert_eq!(
        optional_u32("101", "อายุใช้งาน", 100),
        Err("อายุใช้งานต้องไม่เกิน 100 ปี".to_string())
    );
    assert_eq!(required_u32("", "อายุใช้งาน", 100), Err("กรุณากรอกอายุใช้งาน".to_string()));
    assert_eq!(required_u32("3", "อายุใช้งาน", 100), Ok(3));
}

#[test]
fn an_asset_year_is_four_digits() {
    assert_eq!(optional_year("2568", "ปีเริ่มใช้"), Ok(Some(2568)));
    assert_eq!(optional_year(" ", "ปีเริ่มใช้"), Ok(None));
    assert_eq!(optional_year("68", "ปีเริ่มใช้"), Err("ปีเริ่มใช้ต้องเป็นปี พ.ศ. 4 หลัก".to_string()));
    assert_eq!(optional_year("0999", "ปีเลิกใช้"), Err("ปีเลิกใช้อยู่นอกขอบเขต".to_string()));
}

#[test]
fn an_asset_is_equipment_or_owned_land_with_a_short_name() {
    assert_eq!(asset_kind("equipment"), Ok(AssetKind::Equipment));
    assert_eq!(asset_kind("owned_land"), Ok(AssetKind::OwnedLand));
    assert!(asset_kind("land").is_err());
    assert_eq!(asset_kind_label(AssetKind::OwnedLand), "ที่ดินที่เป็นเจ้าของ · ไม่คิดค่าเสื่อม");
    assert_eq!(asset_name(" ปั๊ม "), Ok("ปั๊ม".to_string()));
    assert!(asset_name("").is_err());
    assert!(asset_name(&"ก".repeat(121)).is_err());
}

#[test]
fn asset_parser_supports_explicit_year_or_prior_use_without_the_clock() {
    let explicit = parse_asset(
        "ปั๊ม", "equipment", "100000", "2568", "", "5", "", "", Some(2569), LARGEST, LONGEST,
    )
    .unwrap();
    assert_eq!(explicit.start, AssetStart::Year(2568));
    assert_eq!(explicit.residual_value, None);
    let prior = parse_asset(
        "ปั๊ม", "equipment", "100000", "", "3", "5", "0", "", Some(2570), LARGEST, LONGEST,
    )
    .unwrap();
    assert_eq!(prior.start, AssetStart::PriorUse { season_year: 2570, years: 3 });
    assert_eq!(prior.residual_value, Some(Amount { negative: false, magnitude: 0, scale: 0 }));
    assert!(parse_asset(
        "ปั๊ม", "equipment", "100000", "2568", "3", "5", "", "", Some(2570), LARGEST, LONGEST,
    )
    .is_err());
}

#[test]
fn land_rejects_depreciation_fields_and_money_is_bounded() {
    assert!(parse_asset(
        "ที่ดิน", "owned_land", "2000000", "2550", "", "5", "", "", Some(2569), LARGEST, LONGEST,
    )
    .is_err());
    let land = parse_asset(
        "ที่ดิน", "owned_land", "2000000", "2550", "", "", "", "", Some(2569), LARGEST, LONGEST,
    )
    .unwrap();
    assert_eq!(land.kind, AssetKind::OwnedLand);
    assert_eq!(land.useful_life_years, None);
    assert!(required_money("0", "มูลค่า", LARGEST).is_err());
    assert!(required_money("1000000000001", "มูลค่า", LARGEST).is_err());
}

#[test]
fn the_first_unusable_asset_field_is_named() {
    let read = |name: &str, kind: &str, cost: &str, start: &str, prior: &str, life: &str, season: Option<i32>| {
        parse_asset(name, kind, cost, start, prior, life, "", "", season, LARGEST, LONGEST)
    };
    assert_eq!(
        read(" ", "equipment", "1", "2568", "", "5", None),
        Err("กรุณากรอกชื่อสินทรัพย์ไม่เกิน 120 ตัวอักษร".to_string())
    );
    assert_eq!(
        read("รถ", "vehicle", "1", "2568", "", "5", None),
        Err("ประเภทสินทรัพย์ไม่ถูกต้อง".to_string())
    );
    assert_eq!(
        read("รถ", "equipment", "1", "2568", "3", "5", None),
        Err("กรอกปีเริ่มใช้หรือจำนวนปีที่ใช้มาแล้วเพียงอย่างเดียว".to_string())
    );
    assert_eq!(
        read("รถ", "equipment", "1", "", "3", "5", None),
        Err("ฤดูกาลนี้ยังไม่มีปี พ.ศ.".to_string())
    );
    assert_eq!(
        read("รถ", "equipment", "1", "", "", "5", Some(2569)),
        Err("กรุณากรอกปีเริ่มใช้หรือจำนวนปีที่ใช้มาแล้ว".to_string())
    );
    assert_eq!(
        read("รถ", "equipment", "1", "2568", "", "", None),
        Err("กรุณากรอกอายุใช้งาน".to_string())
    );
    assert_eq!(
        read("รถ", "equipment", "", "2568", "", "5", None),
        Err("กรุณากรอกราคาซื้อหรือมูลค่าเดิม".to_string())
    );
    assert_eq!(
        parse_asset("รถ", "equipment", "1", "2568", "", "5", "", "68", None, LARGEST, LONGEST),
        Err("ปีเลิกใช้ต้องเป็นปี พ.ศ. 4 หลัก".to_string())
    );
    let car = read("  รถไถ ", "equipment", "250,000", "2560", "", "8", None).unwrap();
    assert_eq!(car.name, "รถไถ");
    assert_eq!(car.useful_life_years, Some(8));
    assert_eq!(car.original_cost, Amount { negative: false, magnitude: 250_000, scale: 0 });
}

#[test]
fn asset_store_refusals_are_named_for_the_owner() {
    assert_eq!(public_store_error(StoreError::NotFound), "ไม่พบข้อมูลนี้");
    assert_eq!(public_store_error(StoreError::Closed), "ฤดูกาลนี้ปิดแล้วและแก้ไขไม่ได้");
    assert_eq!(
        public_store_error(StoreError::InvalidValue),
        "ข้อมูลสินทรัพย์ไม่ถูกต้อง กรุณาตรวจตัวเลขและปี"
    );
    assert_eq!(public_store_error(StoreError::Unavailable), PUBLIC_SERVER_ERROR);
    assert_eq!(public_store_error(StoreError::DuplicateSeasonYear), PUBLIC_SERVER_ERROR);
}

#[test]
fn only_an_open_season_takes_asset_changes() {
    assert_eq!(ensure_open(None), Err("ไม่พบฤดูกาลนี้"));
    assert_eq!(ensure_open(Some(true)), Err("ฤดูกาลนี้ปิดแล้วและแก้ไขไม่ได้"));
    assert_eq!(ensure_open(Some(false)), Ok(()));
}
