use std::rc::Rc;

use bsp_loader::file_loader::{fallback_step, FallbackFileLoader, FallbackStep, FileError, FileLoader};
use bsp_loader::vpk_path::VpkPath;

struct Fixed {
    name: &'static str,
    data: Result<Option<Vec<u8>>, FileError>,
}

impl FileLoader for Fixed {
    fn load_file(&self, path: &VpkPath) -> Result<Option<Vec<u8>>, FileError> {
        if path.to_string() == self.name {
            self.data.clone()
        } else {
            Ok(None)
        }
    }
}

fn path(name: &str) -> VpkPath {
    VpkPath::new_with_prefix_and_extension(name, "materials", "vmt")
}

#[test]
fn fallback_takes_first_source_that_has_the_file() {
    let a: Rc<dyn FileLoader> = Rc::new(Fixed { name: "materials/a.vmt", data: Ok(Some(vec![1])) });
    let b: Rc<dyn FileLoader> = Rc::new(Fixed { name: "materials/b.vmt", data: Ok(Some(vec![2])) });
    let b2: Rc<dyn FileLoader> = Rc::new(Fixed { name: "materials/a.vmt", data: Ok(Some(vec![3])) });
    let loader = FallbackFileLoader::new(vec![Box::new(a), Box::new(b), Box::new(b2)]);
    assert_eq!(loader.load_file(&path("a")), Ok(Some(vec![1])));
    assert_eq!(loader.load_file(&path("b")), Ok(Some(vec![2])));
    assert_eq!(
        loader.load_file(&path("c")),
        Err(FileError::NotFound("materials/c.vmt".to_string()))
    );
}

#[test]
fn fallback_stops_at_a_failing_source() {
    let bad: Rc<dyn FileLoader> = Rc::new(Fixed {
        name: "materials/a.vmt",
        data: Err(FileError::Source("disk".to_string())),
    });
    let good: Rc<dyn FileLoader> = Rc::new(Fixed { name: "materials/a.vmt", data: Ok(Some(vec![1])) });
    let loader = FallbackFileLoader::new(vec![Box::new(bad), Box::new(good)]);
    assert_eq!(loader.load_file(&path("a")), Err(FileError::Source("disk".to_string())));
}

#[test]
fn vpk_path_parts() {
    let p = VpkPath::new_with_prefix_and_extension("Brick\\Wall01", "materials", "VTF");
    assert_eq!(p.to_string(), "materials/brick/wall01.vtf");
    assert_eq!(p.parent().as_str(), "materials/brick");
    assert_eq!(p.file_stem().as_str(), "wall01");
    assert_eq!(p.extension().as_str(), "vtf");
    assert_eq!(p.as_canonical_path().as_str(), "materials/brick/wall01.vtf");
    let q = VpkPath::new_with_prefix_and_extension("materials/tools/nodraw.vmt", "materials", "vtf");
    assert_eq!(q.to_string(), "materials/tools/nodraw.vmt");
    let r = VpkPath::new_with_prefix_and_extension("nodraw", "", "vmt");
    assert_eq!(r.parent().as_str(), "");
    assert_eq!(r.file_stem().as_str(), "nodraw");
    assert!(VpkPath::try_new_with_prefix_and_extension("a.b/c", "", "x").is_none());
    assert_eq!(p.clone(), p);
}

#[test]
fn fallback_without_sources_reports_the_path() {
    let loader = FallbackFileLoader::new(vec![]);
    assert_eq!(
        loader.load_file(&path("d")),
        Err(FileError::NotFound("materials/d.vmt".to_string()))
    );
}

#[test]
fn fallback_step_decides_on_one_answer() {
    assert!(matches!(fallback_step(Ok(None)), FallbackStep::Next));
    assert!(matches!(fallback_step(Ok(Some(vec![7]))), FallbackStep::Return(Ok(Some(d))) if d == vec![7]));
    assert!(matches!(
        fallback_step(Err(FileError::Source("io".to_string()))),
        FallbackStep::Return(Err(FileError::Source(m))) if m == "io"
    ));
}
