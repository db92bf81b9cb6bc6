use rusty_organizer::classify::{category_for, classify, extension_of, str_eq, OrganizeMode};
use rusty_organizer::plan::{destination_of, plan_moves};

#[test]
fn extension_of_plain() {
    assert_eq!(extension_of("a.jpg"), Some("jpg"));
    assert_eq!(extension_of("archive.tar.gz"), Some("gz"));
    assert_eq!(extension_of("README.MD"), Some("MD"));
    assert_eq!(extension_of("trailing."), Some(""));
}

#[test]
fn extension_of_absent() {
    assert_eq!(extension_of("notes"), None);
    assert_eq!(extension_of(".gitignore"), None);
    assert_eq!(extension_of(""), None);
}

#[test]
fn str_eq_agrees_with_equality() {
    assert!(str_eq("jpg", "jpg"));
    assert!(!str_eq("jpg", "jpeg"));
    assert!(!str_eq("jpg", "jpG"));
    assert!(str_eq("", ""));
}

#[test]
fn every_table_extension_gets_its_category() {
    let table: &[(&str, &str)] = &[
        ("jpg", "Images"),
        ("jpeg", "Images"),
        ("png", "Images"),
        ("gif", "Images"),
        ("bmp", "Images"),
        ("svg", "Images"),
        ("webp", "Images"),
        ("pdf", "Documents"),
        ("doc", "Documents"),
        ("docx", "Documents"),
        ("xls", "Documents"),
        ("xlsx", "Documents"),
        ("ppt", "Documents"),
        ("pptx", "Documents"),
        ("txt", "Documents"),
        ("rtf", "Documents"),
        ("md", "Documents"),
        ("zip", "Archives"),
        ("rar", "Archives"),
        ("tar", "Archives"),
        ("gz", "Archives"),
        ("7z", "Archives"),
        ("bz2", "Archives"),
        ("mp3", "Audio"),
        ("wav", "Audio"),
        ("flac", "Audio"),
        ("aac", "Audio"),
        ("ogg", "Audio"),
        ("mp4", "Videos"),
        ("mov", "Videos"),
        ("avi", "Videos"),
        ("mkv", "Videos"),
        ("flv", "Videos"),
        ("wmv", "Videos"),
        ("exe", "Executables"),
        ("msi", "Executables"),
        ("dmg", "Executables"),
        ("deb", "Executables"),
        ("rpm", "Executables"),
        ("json", "Data"),
        ("xml", "Data"),
        ("yaml", "Data"),
        ("yml", "Data"),
        ("csv", "Data"),
        ("html", "Web"),
        ("htm", "Web"),
        ("css", "Web"),
        ("js", "Web"),
        ("ts", "Web"),
        ("jsx", "Web"),
        ("tsx", "Web"),
        ("rs", "Code"),
        ("c", "Code"),
        ("cpp", "Code"),
        ("h", "Code"),
        ("hpp", "Code"),
        ("java", "Code"),
        ("py", "Code"),
        ("go", "Code"),
        ("sh", "Code"),
    ];
    for (ext, cat) in table {
        assert_eq!(category_for(ext), *cat);
        let name = format!("file.{}", ext);
        assert_eq!(classify(&name, OrganizeMode::Type), *cat);
    }
}

#[test]
fn type_matching_is_case_insensitive() {
    assert_eq!(classify("photo.JPG", OrganizeMode::Type), "Images");
    assert_eq!(classify("Report.PdF", OrganizeMode::Type), "Documents");
    assert_eq!(classify("MUSIC.Mp3", OrganizeMode::Type), "Audio");
}

#[test]
fn unlisted_extension_goes_to_other() {
    assert_eq!(classify("data.xyz", OrganizeMode::Type), "Other");
    assert_eq!(classify("a.torrent", OrganizeMode::Type), "Other");
    assert_eq!(classify("trailing.", OrganizeMode::Type), "Other");
}

#[test]
fn no_extension_goes_to_other() {
    assert_eq!(classify("notes", OrganizeMode::Type), "Other");
    assert_eq!(classify(".gitignore", OrganizeMode::Type), "Other");
}

#[test]
fn by_extension_lowercases() {
    assert_eq!(classify("README.MD", OrganizeMode::Extension), "md");
    assert_eq!(classify("a.jpg", OrganizeMode::Extension), "jpg");
    assert_eq!(classify("archive.tar.GZ", OrganizeMode::Extension), "gz");
    assert_eq!(classify("trailing.", OrganizeMode::Extension), "");
}

#[test]
fn by_extension_without_extension_is_unknown() {
    assert_eq!(classify("notes", OrganizeMode::Extension), "Unknown");
    assert_eq!(classify(".profile", OrganizeMode::Extension), "Unknown");
}

#[test]
fn lowercasing_is_not_the_identity() {
    // Would fail if the case folding handed its argument back unchanged.
    assert_eq!(classify("A.JPG", OrganizeMode::Extension), "jpg");
    assert_ne!(classify("A.JPG", OrganizeMode::Extension), "JPG");
}

#[test]
fn non_ascii_extension_is_folded_by_unicode() {
    assert_eq!(classify("письмо.ТХТ", OrganizeMode::Extension), "тхт");
    assert_eq!(classify("письмо.ТХТ", OrganizeMode::Type), "Other");
}

#[test]
fn destination_for_image_by_type() {
    assert_eq!(destination_of("a.jpg", OrganizeMode::Type), "Images/a.jpg");
}

#[test]
fn destination_without_extension_by_type() {
    assert_eq!(destination_of("notes", OrganizeMode::Type), "Other/notes");
}

#[test]
fn destination_uppercase_by_extension() {
    assert_eq!(destination_of("README.MD", OrganizeMode::Extension), "md/README.MD");
}

#[test]
fn plan_reports_one_destination_per_file() {
    let names = vec![
        String::from("a.jpg"),
        String::from("notes"),
        String::from("song.mp3"),
    ];
    let plan = plan_moves(&names, OrganizeMode::Type);
    assert_eq!(plan.len(), 3);
    for (i, p) in plan.iter().enumerate() {
        assert_eq!(p.file_name, names[i]);
        assert_eq!(p.category, classify(&names[i], OrganizeMode::Type));
        assert_eq!(p.destination, format!("{}/{}", p.category, p.file_name));
    }
}

#[test]
fn planning_twice_reports_the_same_destinations() {
    let names = vec![
        String::from("a.jpg"),
        String::from("notes"),
        String::from("README.MD"),
        String::from("archive.tar.gz"),
    ];
    for mode in [OrganizeMode::Extension, OrganizeMode::Type] {
        let first = plan_moves(&names, mode);
        let second = plan_moves(&names, mode);
        assert_eq!(first.len(), second.len());
        for (a, b) in first.iter().zip(second.iter()) {
            assert_eq!(a.file_name, b.file_name);
            assert_eq!(a.category, b.category);
            assert_eq!(a.destination, b.destination);
        }
    }
}
