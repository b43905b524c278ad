use lazarobox_img::export::{create_output_file, output_dir_path, ExportError};
use lazarobox_img::inspector::{image_info, ImageInfo};
use lazarobox_img::optimizer::{batch_totals, OptimizationResult, OptimizedImage};
use lazarobox_img::paths::{is_image, same_text};
use lazarobox_img::policy::{evaluate, OptimizationDecision};
use lazarobox_img::text::{
    ascii_uppercase_exec, chars_of, contains_exec, decimal_string, eq_ignore_ascii_case_exec,
    is_whitespace, lex_less_exec, normalize_chars, parse_i32_exec, parse_u32_exec, string_of,
    trim_str, utf8_len_below,
};
use lazarobox_img::types::{OutputFormat, ProgressState};

fn info(width: u32, height: u32) -> ImageInfo {
    ImageInfo { path: "x".to_string(), filename: "x".to_string(), size: 1000, width, height }
}

fn normalized(s: &str) -> String {
    string_of(&normalize_chars(s))
}

#[test]
fn output_dir_examples() {
    assert_eq!(output_dir_path("foto.jpg", false), Ok("optimized-foto".to_string()));
    assert_eq!(
        output_dir_path("imagenes", true),
        Ok("imagenes/optimized-imagenes".to_string())
    );
    assert_eq!(
        output_dir_path("/fotos/viaje/playa.png", false),
        Ok("/fotos/viaje/optimized-playa".to_string())
    );
    assert_eq!(output_dir_path("/", true), Err(ExportError::NoInputName));
    assert_eq!(output_dir_path("..", false), Err(ExportError::NoInputName));
}

#[test]
fn output_file_example() {
    assert_eq!(
        create_output_file("/imagenes/optimized-imagenes", "/imagenes/foto.jpg", "webp"),
        Ok("/imagenes/optimized-imagenes/foto.webp".to_string())
    );
    assert_eq!(
        create_output_file("out", "dir/archivo.tar.gz", "png"),
        Ok("out/archivo.tar.png".to_string())
    );
    assert_eq!(create_output_file("out", "/", "png"), Err(ExportError::NoFileName));
    assert_eq!(ExportError::NoFileName.message(), "No se puede obetener el nombre del archivo");
    assert_eq!(ExportError::NoInputName.message(), "No se pudo obtener el nombre de la entrada");
}

#[test]
fn image_extensions_in_any_case() {
    for path in ["a.jpg", "a.JPEG", "dir/b.png", "c.WebP", "d.bmp", "e.tiff"] {
        assert!(is_image(path), "{path}");
    }
    for path in ["a.gif", "a.tif", "noext", "dir.jpg/readme", ".jpg"] {
        assert!(!is_image(path), "{path}");
    }
}

#[test]
fn policy_skips_only_images_in_format_within_bounds() {
    let small = info(800, 600);
    assert_eq!(
        evaluate("a.WEBP", OutputFormat::Webp, Some(1024), None, &small),
        OptimizationDecision::SkipAlreadyOptimized
    );
    assert_eq!(
        evaluate("a.webp", OutputFormat::Webp, Some(640), None, &small),
        OptimizationDecision::Optimize
    );
    assert_eq!(
        evaluate("a.webp", OutputFormat::Webp, None, Some(500), &small),
        OptimizationDecision::Optimize
    );
    assert_eq!(
        evaluate("a.jpg", OutputFormat::Webp, None, None, &small),
        OptimizationDecision::Optimize
    );
    assert_eq!(
        evaluate("a.jpg", OutputFormat::Jpeg, None, None, &small),
        OptimizationDecision::SkipAlreadyOptimized
    );
    assert_eq!(
        evaluate("sin_extension", OutputFormat::Png, None, None, &small),
        OptimizationDecision::Optimize
    );
}

#[test]
fn formats_cycle_and_name_their_extension() {
    assert_eq!(
        OutputFormat::all(),
        [OutputFormat::Webp, OutputFormat::Avif, OutputFormat::Jpeg, OutputFormat::Png]
    );
    let extensions: Vec<&str> = OutputFormat::all().iter().map(|f| f.extension()).collect();
    assert_eq!(extensions, vec!["webp", "avif", "jpg", "png"]);
    assert_eq!(OutputFormat::Png.next(), OutputFormat::Webp);
    assert_eq!(OutputFormat::Webp.previous(), OutputFormat::Png);
    for f in OutputFormat::all() {
        assert_eq!(f.next().previous(), f);
        assert_eq!(f.next().next().next().next(), f);
    }
    assert_eq!(OutputFormat::default(), OutputFormat::Webp);
}

#[test]
fn progress_and_result_sizes() {
    let p = ProgressState::new("Optimizando", 2, 5, "foto.jpg");
    assert_eq!((p.stage.as_str(), p.current, p.total, p.filename.as_str()), ("Optimizando", 2, 5, "foto.jpg"));
    let out = |size: u64| OptimizedImage {
        output_path: "o".to_string(),
        format: "webp".to_string(),
        size,
        width: 1,
        height: 1,
    };
    let result = OptimizationResult { original: info(1, 1), outputs: vec![out(300), out(200)] };
    assert_eq!(result.sizes(), (1000, 500));
    let none = OptimizationResult { original: info(1, 1), outputs: Vec::new() };
    assert_eq!(none.sizes(), (1000, 0));
}

#[test]
fn normalizing_text() {
    assert_eq!(normalized("  \"Hola   mundo\"  "), "Hola mundo");
    assert_eq!(normalized("línea\\x0auna\r\notra"), "línea una otra");
    assert_eq!(normalized("\"\"\"citado\"\""), "citado");
    assert_eq!(normalized("   "), "");
    assert_eq!(normalized(""), "");
    assert_eq!(normalized("a\u{3000}b"), "a b");
}

#[test]
fn trimming_and_whitespace() {
    assert_eq!(trim_str("  \t hola \n"), "hola");
    assert_eq!(trim_str("\u{a0}x\u{2003}"), "x");
    assert_eq!(trim_str(""), "");
    assert!(is_whitespace(' '));
    assert!(is_whitespace('\u{85}'));
    assert!(is_whitespace('\u{2028}'));
    assert!(!is_whitespace('x'));
    assert!(!is_whitespace('\u{200b}'));
}

#[test]
fn decimal_and_parsing() {
    assert_eq!(decimal_string(0), "0");
    assert_eq!(decimal_string(1234567890), "1234567890");
    assert_eq!(decimal_string(u128::MAX), u128::MAX.to_string());
    assert_eq!(parse_u32_exec(&chars_of("4294967295")), Some(u32::MAX));
    assert_eq!(parse_u32_exec(&chars_of("4294967296")), None);
    assert_eq!(parse_u32_exec(&chars_of("+12")), Some(12));
    assert_eq!(parse_u32_exec(&chars_of("007")), Some(7));
    assert_eq!(parse_u32_exec(&chars_of("")), None);
    assert_eq!(parse_u32_exec(&chars_of("-1")), None);
    assert_eq!(parse_u32_exec(&chars_of("1 2")), None);
    assert_eq!(parse_i32_exec(&chars_of("-2147483648")), Some(i32::MIN));
    assert_eq!(parse_i32_exec(&chars_of("2147483648")), None);
    assert_eq!(parse_i32_exec(&chars_of("-")), None);
    assert_eq!(parse_i32_exec(&chars_of("+5")), Some(5));
}

#[test]
fn comparing_text() {
    assert!(same_text("abc", "abc"));
    assert!(!same_text("abc", "abd"));
    assert!(eq_ignore_ascii_case_exec("WebP", "webp"));
    assert!(!eq_ignore_ascii_case_exec("Ñ", "ñ"));
    assert_eq!(ascii_uppercase_exec("jpg ñ"), "JPG ñ");
    assert!(lex_less_exec(&chars_of("abc"), &chars_of("abd")));
    assert!(lex_less_exec(&chars_of("ab"), &chars_of("abc")));
    assert!(!lex_less_exec(&chars_of("b"), &chars_of("abc")));
    assert!(!lex_less_exec(&chars_of("x"), &chars_of("x")));
    assert!(contains_exec(&chars_of("stable diffusion xl"), &chars_of("diffusion")));
    assert!(!contains_exec(&chars_of("flu"), &chars_of("flux")));
    assert!(contains_exec(&chars_of("x"), &chars_of("")));
}

#[test]
fn utf8_length_limit() {
    assert!(utf8_len_below("abc", 4));
    assert!(!utf8_len_below("abc", 3));
    assert!(utf8_len_below("ñ", 3));
    assert!(!utf8_len_below("ñ", 2));
    assert!(!utf8_len_below("€", 3));
    assert!(utf8_len_below("", 1));
}

#[test]
fn image_info_names_the_file() {
    let info = image_info("/fotos/viaje/playa.jpg", 2048, 640, 480).expect("has a file name");
    assert_eq!(info.filename, "playa.jpg");
    assert_eq!(info.path, "/fotos/viaje/playa.jpg");
    assert_eq!((info.size, info.width, info.height), (2048, 640, 480));
    assert!(image_info("/", 0, 1, 1).is_none());
}

#[test]
fn batch_totals_add_originals_and_outputs() {
    let out = |size: u64| OptimizedImage {
        output_path: "o".to_string(),
        format: "webp".to_string(),
        size,
        width: 1,
        height: 1,
    };
    let mut a = info(1, 1);
    a.size = 700;
    let results = vec![
        OptimizationResult { original: info(1, 1), outputs: vec![out(300), out(200)] },
        OptimizationResult { original: a, outputs: vec![out(50)] },
    ];
    assert_eq!(batch_totals(&results), (1700, 550));
    assert_eq!(batch_totals(&Vec::new()), (0, 0));
}
