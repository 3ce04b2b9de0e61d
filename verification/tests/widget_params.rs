use curdk::{
    AlphalistParams, Border, ButtonParams, ButtonboxParams, CalendarParams, DateParams,
    DialogParams, DigitScaleParams, EntryParams, Error, FselectParams, GraphParams,
    HistogramParams, ItemlistItemsParams, ItemlistParams, ItemsParams, LabelParams,
    MarqueeMessageParams, MarqueeParams, MatrixCellParams, MatrixParams, MentryParams,
    MenuParams, MenuPositionParams, RadioParams, ScaleParams, ScrollParams, SelectionParams,
    SwindowLineParams, SwindowParams, TemplateParams, ViewerInfoParams, ViewerParams, CENTER,
    BOTTOM, LEFT, RIGHT, TOP,
};

const BIG: u32 = 0x8000_0000;

fn texts(array: &curdk::CStringArray) -> Vec<Vec<u8>> {
    array.as_slice().iter().map(|t| t.as_bytes().to_vec()).collect()
}

fn out_of_range(result: Result<impl std::fmt::Debug, Error>) -> (&'static str, u64) {
    match result {
        Err(Error::ValueOutOfRange(name, value)) => (name, value),
        other => panic!("unexpected {other:?}"),
    }
}

fn nul_position(result: Result<impl std::fmt::Debug, Error>) -> usize {
    match result {
        Err(Error::InteriorNul(n)) => n.nul_position(),
        other => panic!("unexpected {other:?}"),
    }
}

#[test]
fn positions_are_cdk_constants() {
    assert_eq!((LEFT, RIGHT, CENTER, TOP, BOTTOM), (9000, 9001, 9002, 9003, 9004));
}

#[test]
fn alphalist_arguments_convert() {
    let p = AlphalistParams::new(
        CENTER, CENTER, 8, 24, "Cities", "City: ", &["Helsinki", "Joensuu", "Turku"],
        Border::SHADOWED(),
    )
    .unwrap();
    assert_eq!((p.xpos, p.ypos, p.height, p.width, p.item_count), (9002, 9002, 8, 24, 3));
    assert_eq!(p.title.as_bytes(), b"Cities");
    assert_eq!(p.label.as_bytes(), b"City: ");
    assert_eq!(texts(&p.items), vec![b"Helsinki".to_vec(), b"Joensuu".to_vec(), b"Turku".to_vec()]);
    assert_eq!((p.boxed, p.shadow), (1, 1));
}

#[test]
fn alphalist_checks_integers_before_strings() {
    let r = AlphalistParams::new(CENTER, BIG, 8, 24, "Ci\0ties", "City: ", &[], Border::NONE());
    assert_eq!(out_of_range(r), ("y position", 0x8000_0000));
    let r = AlphalistParams::new(CENTER, CENTER, 8, BIG, "Cities", "City: ", &[], Border::NONE());
    assert_eq!(out_of_range(r), ("width", 0x8000_0000));
    let r = AlphalistParams::new(1, 1, 1, 1, "Cities", "Ci\0ty", &["\0"], Border::NONE());
    assert_eq!(nul_position(r), 2);
    let r = AlphalistParams::new(1, 1, 1, 1, "Cities", "City", &["ok", "x\0"], Border::NONE());
    assert_eq!(nul_position(r), 1);
}

#[test]
fn item_lists_convert_with_their_count_name() {
    let p = ItemsParams::new(&["Updated", "Another"], "item count").unwrap();
    assert_eq!(p.item_count, 2);
    assert_eq!(texts(&p.items), vec![b"Updated".to_vec(), b"Another".to_vec()]);
    let p = ItemsParams::new(&[], "line count").unwrap();
    assert_eq!(p.item_count, 0);
    assert_eq!(nul_position(ItemsParams::new(&["on\0e"], "line count")), 2);
}

#[test]
fn button_checks_its_message_first() {
    let p = ButtonParams::new(LEFT, TOP, "OK", Border::BOXED()).unwrap();
    assert_eq!((p.xpos, p.ypos, p.boxed, p.shadow), (9000, 9003, 1, 0));
    assert_eq!(p.message.as_bytes(), b"OK");
    assert_eq!(nul_position(ButtonParams::new(BIG, TOP, "\0", Border::NONE())), 0);
    assert_eq!(out_of_range(ButtonParams::new(BIG, BIG, "OK", Border::NONE())), ("x position", 0x8000_0000));
}

#[test]
fn buttonbox_arguments_convert() {
    let p = ButtonboxParams::new(CENTER, BOTTOM, 5, 32, 1, 2, &["Search", "Quit"], Border::NONE()).unwrap();
    assert_eq!((p.rows, p.cols, p.button_count), (1, 2, 2));
    assert_eq!(texts(&p.buttons), vec![b"Search".to_vec(), b"Quit".to_vec()]);
    let r = ButtonboxParams::new(CENTER, BOTTOM, 5, 32, 1, BIG, &["\0"], Border::NONE());
    assert_eq!(out_of_range(r), ("columns", 0x8000_0000));
}

#[test]
fn calendar_arguments_convert() {
    let p = CalendarParams::new(CENTER, CENTER, "Date", 4, 7, 2026, Border::NONE()).unwrap();
    assert_eq!((p.day, p.month, p.year), (4, 7, 2026));
    assert_eq!(p.title.as_bytes(), b"Date");
    let r = CalendarParams::new(CENTER, CENTER, "Da\0te", 4, BIG, 2026, Border::NONE());
    assert_eq!(out_of_range(r), ("month", 0x8000_0000));
    let p = DateParams::new(15, 8, 2027).unwrap();
    assert_eq!((p.day, p.month, p.year), (15, 8, 2027));
    assert_eq!(out_of_range(DateParams::new(15, 8, BIG)), ("year", 0x8000_0000));
}

#[test]
fn dialog_arguments_convert() {
    let p = DialogParams::new(CENTER, CENTER, "Continue?", 1, &["Yes", "No"], Border::NONE()).unwrap();
    assert_eq!((p.rows, p.button_count), (1, 2));
    assert_eq!(p.message.as_bytes(), b"Continue?");
    assert_eq!(nul_position(DialogParams::new(BIG, CENTER, "Go\0", 1, &[], Border::NONE())), 2);
    assert_eq!(nul_position(DialogParams::new(1, 1, "Go", 1, &["Yes", "N\0o"], Border::NONE())), 1);
}

#[test]
fn scale_arguments_convert() {
    let p = ScaleParams::new(CENTER, CENTER, "Scale", "Value: ", 8, Border::NONE()).unwrap();
    assert_eq!(p.field_width, 8);
    assert_eq!(p.label.as_bytes(), b"Value: ");
    assert_eq!(out_of_range(ScaleParams::new(CENTER, CENTER, "\0", "", BIG, Border::NONE())), ("field width", 0x8000_0000));
    let p = DigitScaleParams::new(CENTER, CENTER, "FScale", "Value: ", 8, 2, Border::NONE()).unwrap();
    assert_eq!((p.field_width, p.digits), (8, 2));
    assert_eq!(out_of_range(DigitScaleParams::new(1, 1, "", "", 8, BIG, Border::NONE())), ("digits", 0x8000_0000));
}

#[test]
fn entry_checks_strings_then_positions_then_label_length() {
    let p = EntryParams::new(CENTER, CENTER, "Name", "Input: ", Border::BOXED()).unwrap();
    assert_eq!(p.label_length, 7);
    let p = EntryParams::new(CENTER, CENTER, "Name", "Név: ", Border::BOXED()).unwrap();
    assert_eq!(p.label_length, "Név: ".len() as i32);
    assert_eq!(nul_position(EntryParams::new(BIG, CENTER, "Na\0me", "", Border::NONE())), 2);
    assert_eq!(out_of_range(EntryParams::new(BIG, CENTER, "Name", "", Border::NONE())), ("x position", 0x8000_0000));
}

#[test]
fn fselect_arguments_convert() {
    let p = FselectParams::new(CENTER, CENTER, 20, 65, "Pick", "File: ", Border::BOXED()).unwrap();
    assert_eq!((p.height, p.width), (20, 65));
    assert_eq!(out_of_range(FselectParams::new(CENTER, CENTER, BIG, 65, "", "", Border::NONE())), ("height", 0x8000_0000));
}

#[test]
fn viewer_arguments_convert() {
    let p = ViewerParams::new(CENTER, CENTER, 20, 65, &["OK"], Border::NONE()).unwrap();
    assert_eq!(p.button_count, 1);
    let p = ViewerInfoParams::new("File", &["a", "b", "c"]).unwrap();
    assert_eq!(p.line_count, 3);
    assert_eq!(texts(&p.lines), vec![b"a".to_vec(), b"b".to_vec(), b"c".to_vec()]);
    assert_eq!(nul_position(ViewerInfoParams::new("F\0", &["\0"])), 1);
}

#[test]
fn mentry_arguments_convert() {
    let p = MentryParams::new(CENTER, CENTER, "Notes", "", 40, 5, Border::NONE()).unwrap();
    assert_eq!((p.width, p.rows), (40, 5));
    assert_eq!(out_of_range(MentryParams::new(CENTER, CENTER, "", "", 40, BIG, Border::NONE())), ("field rows", 0x8000_0000));
}

#[test]
fn graph_checks_titles_first() {
    let p = GraphParams::new(CENTER, CENTER, 8, 20, "Load", "t", "v").unwrap();
    assert_eq!((p.height, p.width), (8, 20));
    assert_eq!(p.ytitle.as_bytes(), b"v");
    assert_eq!(nul_position(GraphParams::new(BIG, CENTER, 8, 20, "Load", "\0", "v")), 0);
}

#[test]
fn histogram_arguments_convert() {
    let p = HistogramParams::new(CENTER, CENTER, 3, 20, 1, "Usage", Border::BOXED()).unwrap();
    assert_eq!(p.orient, 1);
    assert_eq!(out_of_range(HistogramParams::new(1, 1, 3, 20, BIG, "Usage", Border::NONE())), ("orientation", 0x8000_0000));
}

#[test]
fn itemlist_arguments_convert() {
    let p = ItemlistParams::new(CENTER, CENTER, "Day", "Weekday: ", &["Mon", "Tue", "Wed"], 0, Border::NONE()).unwrap();
    assert_eq!((p.item_count, p.default_item), (3, 0));
    let p = ItemlistItemsParams::new(&["Thu", "Fri"], 1).unwrap();
    assert_eq!((p.item_count, p.default_item), (2, 1));
    assert_eq!(out_of_range(ItemlistItemsParams::new(&["\0"], BIG)), ("default item", 0x8000_0000));
}

#[test]
fn label_and_marquee_arguments_convert() {
    let p = LabelParams::new(CENTER, TOP, "label", Border::NONE()).unwrap();
    assert_eq!(p.message.as_bytes(), b"label");
    let p = MarqueeParams::new(CENTER, CENTER, 24, Border::NONE()).unwrap();
    assert_eq!(p.width, 24);
    let p = MarqueeMessageParams::new("News", 5, 2).unwrap();
    assert_eq!((p.delay, p.repeat), (5, 2));
    assert_eq!(out_of_range(MarqueeMessageParams::new("News", 5, BIG)), ("repeat", 0x8000_0000));
}

#[test]
fn matrix_arguments_convert() {
    let p = MatrixParams::new(CENTER, CENTER, 2, 2, "Grid", &["R1", "R2"], &["C1", "C2"], &[8, 8], Border::BOXED()).unwrap();
    assert_eq!((p.actual_rows, p.actual_cols, p.view_rows, p.view_cols), (2, 2, 2, 2));
    assert_eq!(texts(&p.row_titles), vec![b"".to_vec(), b"R1".to_vec(), b"R2".to_vec()]);
    assert_eq!(texts(&p.col_titles), vec![b"".to_vec(), b"C1".to_vec(), b"C2".to_vec()]);
    assert_eq!(p.col_widths, vec![0, 8, 8]);
    match MatrixParams::new(BIG, CENTER, 2, 2, "Grid", &["R1"], &["C1", "C2"], &[8], Border::NONE()) {
        Err(Error::LengthMismatch("matrix column widths", 2, 1)) => {}
        other => panic!("unexpected {other:?}"),
    }
    let r = MatrixParams::new(1, 1, 2, 2, "Grid", &["R1"], &["C1"], &[BIG], Border::NONE());
    assert_eq!(out_of_range(r), ("column width", 0x8000_0000));
}

#[test]
fn matrix_cell_arguments_convert() {
    let p = MatrixCellParams::new(0, 1, "hello").unwrap();
    assert_eq!((p.row, p.col), (1, 2));
    assert_eq!(p.value.as_bytes(), b"hello");
    assert_eq!(out_of_range(MatrixCellParams::new(BIG, 1, "\0")), ("row", 0x8000_0001));
    assert_eq!(nul_position(MatrixCellParams::new(0, 1, "he\0")), 2);
}

#[test]
fn menu_arguments_convert() {
    let p = MenuParams::new(&[&["File", "Edit"], &["Open", "Quit"]], &[(1, 1), (1, 10)], 0).unwrap();
    assert_eq!((p.menu_count, p.menu_pos), (2, 0));
    assert_eq!(p.submenu_sizes, vec![2, 2]);
    assert_eq!(p.locations, vec![1, 1, 1, 10]);
    assert_eq!(texts(&p.items[1]), vec![b"Open".to_vec(), b"Quit".to_vec()]);
    let p = MenuPositionParams::new(1, 1).unwrap();
    assert_eq!((p.menu_item, p.submenu_item), (1, 1));
}

#[test]
fn menu_reports_the_first_bad_menu() {
    match MenuParams::new(&[&["File"]], &[(1, 1), (1, 10)], 0) {
        Err(Error::LengthMismatch("menu locations", 1, 2)) => {}
        other => panic!("unexpected {other:?}"),
    }
    assert_eq!(out_of_range(MenuParams::new(&[&["File"]], &[(1, 1)], BIG)), ("menu position", 0x8000_0000));
    let long: Vec<&str> = vec!["x"; 99];
    let r = MenuParams::new(&[&["File"], &long, &["\0"]], &[(1, 1), (1, 1), (BIG, 1)], 0);
    assert_eq!(out_of_range(r), ("submenu item count", 99));
    let r = MenuParams::new(&[&["File"], &["\0"]], &[(1, 1), (BIG, 1)], 0);
    assert_eq!(out_of_range(r), ("menu row", 0x8000_0000));
    let r = MenuParams::new(&[&["File"], &["\0"]], &[(1, 1), (1, BIG)], 0);
    assert_eq!(out_of_range(r), ("menu column", 0x8000_0000));
    assert_eq!(nul_position(MenuParams::new(&[&["File"], &["O\0pen"]], &[(1, 1), (1, 1)], 0)), 1);
    let full: Vec<&str> = vec!["x"; 98];
    assert!(MenuParams::new(&[&full], &[(1, 1)], 0).is_ok());
}

#[test]
fn menu_bar_holds_at_most_98_menus() {
    let item: &[&str] = &["x"];
    let menus: Vec<&[&str]> = vec![item; 98];
    let locations = vec![(1u32, 1u32); 98];
    let p = MenuParams::new(&menus, &locations, 0).unwrap();
    assert_eq!(p.menu_count, 98);
    let menus: Vec<&[&str]> = vec![item; 99];
    let locations = vec![(1u32, 1u32); 99];
    assert_eq!(out_of_range(MenuParams::new(&menus, &locations, 0)), ("menu count", 99));
    assert_eq!(out_of_range(MenuParams::new(&menus, &locations, BIG)), ("menu position", 0x8000_0000));
    let long: Vec<&str> = vec!["x"; 99];
    let mut menus: Vec<&[&str]> = vec![item; 99];
    menus[0] = &long;
    assert_eq!(out_of_range(MenuParams::new(&menus, &locations, 0)), ("submenu item count", 99));
    let menus: Vec<&[&str]> = vec![item; 99];
    let mut locations = vec![(1u32, 1u32); 99];
    locations[97] = (BIG, 1);
    assert_eq!(out_of_range(MenuParams::new(&menus, &locations, 0)), ("menu row", 0x8000_0000));
    let locations = vec![(1u32, 1u32); 98];
    match MenuParams::new(&menus, &locations, 0) {
        Err(Error::LengthMismatch("menu locations", 99, 98)) => {}
        other => panic!("unexpected {other:?}"),
    }
}

#[test]
fn radio_and_scroll_arguments_convert() {
    let p = RadioParams::new(CENTER, CENTER, RIGHT, 5, 30, "Choice", &["First", "Second"], 0, Border::NONE()).unwrap();
    assert_eq!((p.spos, p.item_count, p.default_item), (9001, 2, 0));
    assert_eq!(out_of_range(RadioParams::new(1, 1, BIG, 5, 30, "", &[], 0, Border::NONE())), ("scrollbar position", 0x8000_0000));
    let p = ScrollParams::new(CENTER, CENTER, RIGHT, 5, 30, "Items", &["First", "Second"], true, Border::NONE()).unwrap();
    assert_eq!((p.item_count, p.numbers), (2, 1));
    let p = ScrollParams::new(CENTER, CENTER, RIGHT, 5, 30, "Items", &[], false, Border::NONE()).unwrap();
    assert_eq!((p.item_count, p.numbers), (0, 0));
}

#[test]
fn selection_arguments_convert() {
    let p = SelectionParams::new(
        CENTER, CENTER, RIGHT, 5, 30, "Choose", &["First", "Second"], &["[ ]", "[X]"],
        &[true, false], Border::NONE(),
    )
    .unwrap();
    assert_eq!((p.item_count, p.choice_count), (2, 2));
    assert_eq!(p.selections, vec![1, 0]);
    assert_eq!(texts(&p.choice_markers), vec![b"[ ]".to_vec(), b"[X]".to_vec()]);
    match SelectionParams::new(BIG, 1, 1, 1, 1, "", &["First", "Second"], &[], &[true], Border::NONE()) {
        Err(Error::LengthMismatch("selection choices", 2, 1)) => {}
        other => panic!("unexpected {other:?}"),
    }
    let r = SelectionParams::new(1, 1, 1, 1, 1, "", &["First"], &["[\0]"], &[true], Border::NONE());
    assert_eq!(nul_position(r), 1);
}

#[test]
fn swindow_and_template_arguments_convert() {
    let p = SwindowParams::new(CENTER, CENTER, 8, 32, 32, "Log", Border::NONE()).unwrap();
    assert_eq!(p.save_lines, 32);
    let p = SwindowLineParams::new("three", BOTTOM).unwrap();
    assert_eq!(p.insert_pos, 9004);
    assert_eq!(nul_position(SwindowLineParams::new("th\0ree", BIG)), 2);
    let p = TemplateParams::new(CENTER, CENTER, "Date", "ISO: ", "####/##/##", "yyyy/mm/dd", Border::NONE()).unwrap();
    assert_eq!(p.plate.as_bytes(), b"####/##/##");
    assert_eq!(p.overlay.as_bytes(), b"yyyy/mm/dd");
    assert_eq!(nul_position(TemplateParams::new(1, 1, "", "", "#", "y\0", Border::NONE())), 1);
}
