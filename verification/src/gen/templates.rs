//! MoonBit application templates: predefined MoonBit apps used as the basis of offline
//! generation.

use vstd::prelude::*;

use crate::format::wit::pair_views;
use crate::text::{contains_seq, 
    chars_of, extend_chars, extend_str, replace_char, replace_char_chars, str_eq,
    string_from_chars,
};

verus! {

/// The available templates: `(name, description)`.
pub open spec fn template_table() -> Seq<(Seq<char>, Seq<char>)> {
    seq![
        ("minimal"@, "最小模板：Hello World 风格应用"@),
        ("calculator"@, "计算器：支持四则运算的交互式计算器"@),
        ("todo"@, "待办事项：支持增删改查的待办事项管理"@),
        ("image-filter"@, "图片滤镜：图片滤镜处理应用"@),
    ]
}

/// Available templates.
pub fn templates() -> (v: Vec<(&'static str, &'static str)>)
    ensures
        pair_views(v@) == template_table(),
{
    let v = vec![
        ("minimal", "最小模板：Hello World 风格应用"),
        ("calculator", "计算器：支持四则运算的交互式计算器"),
        ("todo", "待办事项：支持增删改查的待办事项管理"),
        ("image-filter", "图片滤镜：图片滤镜处理应用"),
    ];
    assert(pair_views(v@) =~= template_table());
    v
}

/// `s` made safe inside a MoonBit string literal: `"` becomes `'`, backslashes are
/// dropped and newlines become spaces.
pub open spec fn sanitized(s: Seq<char>) -> Seq<char> {
    replace_char(replace_char(replace_char(s, '"', "'"@), '\\', ""@), '\n', " "@)
}

/// Remove characters that would break a string literal.
pub fn sanitize(s: &str) -> (r: Vec<char>)
    ensures
        r@ == sanitized(s@),
{
    let a = replace_char_chars(&chars_of(s), '"', "'");
    let b = replace_char_chars(&a, '\\', "");
    replace_char_chars(&b, '\n', " ")
}

/// The MoonBit source of the `minimal` template for description `desc`.
pub open spec fn minimal_source(desc: Seq<char>) -> Seq<char> {
    let clean = sanitized(desc);
    r#"///| 应用："#@
        + desc
        + r#"
///| 模板：minimal
///| 由 aiapp-mb 生成

fn main {
  println("Hello from aiapp-mb!")
  println("描述："#@
        + clean
        + r#"")
}

/// 应用信息
pub fn app_info() -> String {
  "aiapp-mb minimal app: "#@
        + clean
        + r#""
}
"#@
}

fn minimal_template(desc: &str) -> (s: String)
    ensures
        s@ == minimal_source(desc@),
{
    let clean = sanitize(desc);
    let desc_chars = chars_of(desc);
    let mut out: Vec<char> = Vec::new();
    extend_str(&mut out, r#"///| 应用："#);
    extend_chars(&mut out, &desc_chars);
    extend_str(&mut out, r#"
///| 模板：minimal
///| 由 aiapp-mb 生成

fn main {
  println("Hello from aiapp-mb!")
  println("描述："#);
    extend_chars(&mut out, &clean);
    extend_str(&mut out, r#"")
}

/// 应用信息
pub fn app_info() -> String {
  "aiapp-mb minimal app: "#);
    extend_chars(&mut out, &clean);
    extend_str(&mut out, r#""
}
"#);
    assert(out@ =~= minimal_source(desc@));
    string_from_chars(&out)
}

/// The MoonBit source of the `calculator` template for description `desc`.
pub open spec fn calculator_source(desc: Seq<char>) -> Seq<char> {
    let clean = sanitized(desc);
    r#"///| 应用："#@
        + desc
        + r#"
///| 模板：calculator
///| 由 aiapp-mb 生成

/// 计算器：支持基本四则运算
fn main {
  println("=== 计算器 ===")
  println("描述："#@
        + clean
        + r#"")
  println("支持的运算：+ - * /")
  println("示例：3 + 4 = 7")
}

/// 加法
pub fn add(a: Int, b: Int) -> Int {
  a + b
}

/// 减法
pub fn sub(a: Int, b: Int) -> Int {
  a - b
}

/// 乘法
pub fn mul(a: Int, b: Int) -> Int {
  a * b
}

/// 除法（返回整数结果）
pub fn div(a: Int, b: Int) -> Int {
  a / b
}

/// 应用信息
pub fn app_info() -> String {
  "aiapp-mb calculator app: "#@
        + clean
        + r#""
}
"#@
}

fn calculator_template(desc: &str) -> (s: String)
    ensures
        s@ == calculator_source(desc@),
{
    let clean = sanitize(desc);
    let desc_chars = chars_of(desc);
    let mut out: Vec<char> = Vec::new();
    extend_str(&mut out, r#"///| 应用："#);
    extend_chars(&mut out, &desc_chars);
    extend_str(&mut out, r#"
///| 模板：calculator
///| 由 aiapp-mb 生成

/// 计算器：支持基本四则运算
fn main {
  println("=== 计算器 ===")
  println("描述："#);
    extend_chars(&mut out, &clean);
    extend_str(&mut out, r#"")
  println("支持的运算：+ - * /")
  println("示例：3 + 4 = 7")
}

/// 加法
pub fn add(a: Int, b: Int) -> Int {
  a + b
}

/// 减法
pub fn sub(a: Int, b: Int) -> Int {
  a - b
}

/// 乘法
pub fn mul(a: Int, b: Int) -> Int {
  a * b
}

/// 除法（返回整数结果）
pub fn div(a: Int, b: Int) -> Int {
  a / b
}

/// 应用信息
pub fn app_info() -> String {
  "aiapp-mb calculator app: "#);
    extend_chars(&mut out, &clean);
    extend_str(&mut out, r#""
}
"#);
    assert(out@ =~= calculator_source(desc@));
    string_from_chars(&out)
}

/// The MoonBit source of the `todo` template for description `desc`.
pub open spec fn todo_source(desc: Seq<char>) -> Seq<char> {
    let clean = sanitized(desc);
    r#"///| 应用："#@
        + desc
        + r#"
///| 模板：todo
///| 由 aiapp-mb 生成

/// 待办事项条目
struct Todo {
  id: Int
  title: String
  done: Bool
}

/// 待办事项列表
struct TodoList {
  todos: Array[Todo]
  next_id: Int
}

/// 创建一个空的待办列表
pub fn TodoList::new() -> TodoList {
  TodoList { todos: [], next_id: 1 }
}

/// 添加待办事项
pub fn add(self: TodoList, title: String) {
  let todo = Todo { id: self.next_id, title: title, done: false }
  self.todos.push(todo)
  self.next_id = self.next_id + 1
}

/// 标记为已完成
pub fn complete(self: TodoList, id: Int) {
  for todo in self.todos {
    if todo.id == id {
      todo.done = true
    }
  }
}

/// 列出所有待办事项
pub fn list(self: TodoList) -> String {
  let mut result = "待办事项：\n"
  for todo in self.todos {
    let status = if todo.done { "[✓]" } else { "[ ]" }
    result = result + status + " " + todo.id.to_string() + ". " + todo.title + "\n"
  }
  result
}

fn main {
  println("=== 待办事项 ===")
  println("描述："#@
        + clean
        + r#"")
  let list = TodoList::new()
  list.add("学习 MoonBit")
  list.add("生成 WASM")
  list.add("部署应用")
  list.complete(1)
  println(list.list())
}

/// 应用信息
pub fn app_info() -> String {
  "aiapp-mb todo app: "#@
        + clean
        + r#""
}
"#@
}

fn todo_template(desc: &str) -> (s: String)
    ensures
        s@ == todo_source(desc@),
{
    let clean = sanitize(desc);
    let desc_chars = chars_of(desc);
    let mut out: Vec<char> = Vec::new();
    extend_str(&mut out, r#"///| 应用："#);
    extend_chars(&mut out, &desc_chars);
    extend_str(&mut out, r#"
///| 模板：todo
///| 由 aiapp-mb 生成

/// 待办事项条目
struct Todo {
  id: Int
  title: String
  done: Bool
}

/// 待办事项列表
struct TodoList {
  todos: Array[Todo]
  next_id: Int
}

/// 创建一个空的待办列表
pub fn TodoList::new() -> TodoList {
  TodoList { todos: [], next_id: 1 }
}

/// 添加待办事项
pub fn add(self: TodoList, title: String) {
  let todo = Todo { id: self.next_id, title: title, done: false }
  self.todos.push(todo)
  self.next_id = self.next_id + 1
}

/// 标记为已完成
pub fn complete(self: TodoList, id: Int) {
  for todo in self.todos {
    if todo.id == id {
      todo.done = true
    }
  }
}

/// 列出所有待办事项
pub fn list(self: TodoList) -> String {
  let mut result = "待办事项：\n"
  for todo in self.todos {
    let status = if todo.done { "[✓]" } else { "[ ]" }
    result = result + status + " " + todo.id.to_string() + ". " + todo.title + "\n"
  }
  result
}

fn main {
  println("=== 待办事项 ===")
  println("描述："#);
    extend_chars(&mut out, &clean);
    extend_str(&mut out, r#"")
  let list = TodoList::new()
  list.add("学习 MoonBit")
  list.add("生成 WASM")
  list.add("部署应用")
  list.complete(1)
  println(list.list())
}

/// 应用信息
pub fn app_info() -> String {
  "aiapp-mb todo app: "#);
    extend_chars(&mut out, &clean);
    extend_str(&mut out, r#""
}
"#);
    assert(out@ =~= todo_source(desc@));
    string_from_chars(&out)
}

/// The MoonBit source of the `image_filter` template for description `desc`.
pub open spec fn image_filter_source(desc: Seq<char>) -> Seq<char> {
    let clean = sanitized(desc);
    r#"///| 应用："#@
        + desc
        + r#"
///| 模板：image-filter
///| 由 aiapp-mb 生成

/// 图片像素
struct Pixel {
  r: Int
  g: Int
  b: Int
}

/// 图片
struct Image {
  width: Int
  height: Int
  pixels: Array[Array[Pixel]]
}

/// 创建一张测试图片
pub fn make_test_image(w: Int, h: Int) -> Image {
  let pixels = Array::make(h, Array::make(w, Pixel { r: 0, g: 0, b: 0 }))
  for i in 0..h {
    for j in 0..w {
      pixels[i][j] = Pixel {
        r: ((i * 255) / h).to_int(),
        g: ((j * 255) / w).to_int(),
        b: ((i + j) * 255 / (w + h)).to_int(),
      }
    }
  }
  Image { width: w, height: h, pixels: pixels }
}

/// 灰度滤镜
pub fn to_grayscale(img: Image) -> Image {
  for i in 0..img.height {
    for j in 0..img.width {
      let p = img.pixels[i][j]
      let gray = (p.r + p.g + p.b) / 3
      img.pixels[i][j] = Pixel { r: gray, g: gray, b: gray }
    }
  }
  img
}

/// 反转颜色
pub fn invert(img: Image) -> Image {
  for i in 0..img.height {
    for j in 0..img.width {
      let p = img.pixels[i][j]
      img.pixels[i][j] = Pixel { r: 255 - p.r, g: 255 - p.g, b: 255 - p.b }
    }
  }
  img
}

fn main {
  println("=== 图片滤镜 ===")
  println("描述："#@
        + clean
        + r#"")
  let img = make_test_image(4, 4)
  let w = img.width
  let h = img.height
  println("原始图片：" + w.to_string() + "x" + h.to_string())
  let gray = to_grayscale(img)
  println("灰度滤镜已应用")
  let inverted = invert(gray)
  println("颜色反转已应用")
  println("滤镜处理完成！")
}

/// 应用信息
pub fn app_info() -> String {
  "aiapp-mb image-filter app: "#@
        + clean
        + r#""
}
"#@
}

fn image_filter_template(desc: &str) -> (s: String)
    ensures
        s@ == image_filter_source(desc@),
{
    let clean = sanitize(desc);
    let desc_chars = chars_of(desc);
    let mut out: Vec<char> = Vec::new();
    extend_str(&mut out, r#"///| 应用："#);
    extend_chars(&mut out, &desc_chars);
    extend_str(&mut out, r#"
///| 模板：image-filter
///| 由 aiapp-mb 生成

/// 图片像素
struct Pixel {
  r: Int
  g: Int
  b: Int
}

/// 图片
struct Image {
  width: Int
  height: Int
  pixels: Array[Array[Pixel]]
}

/// 创建一张测试图片
pub fn make_test_image(w: Int, h: Int) -> Image {
  let pixels = Array::make(h, Array::make(w, Pixel { r: 0, g: 0, b: 0 }))
  for i in 0..h {
    for j in 0..w {
      pixels[i][j] = Pixel {
        r: ((i * 255) / h).to_int(),
        g: ((j * 255) / w).to_int(),
        b: ((i + j) * 255 / (w + h)).to_int(),
      }
    }
  }
  Image { width: w, height: h, pixels: pixels }
}

/// 灰度滤镜
pub fn to_grayscale(img: Image) -> Image {
  for i in 0..img.height {
    for j in 0..img.width {
      let p = img.pixels[i][j]
      let gray = (p.r + p.g + p.b) / 3
      img.pixels[i][j] = Pixel { r: gray, g: gray, b: gray }
    }
  }
  img
}

/// 反转颜色
pub fn invert(img: Image) -> Image {
  for i in 0..img.height {
    for j in 0..img.width {
      let p = img.pixels[i][j]
      img.pixels[i][j] = Pixel { r: 255 - p.r, g: 255 - p.g, b: 255 - p.b }
    }
  }
  img
}

fn main {
  println("=== 图片滤镜 ===")
  println("描述："#);
    extend_chars(&mut out, &clean);
    extend_str(&mut out, r#"")
  let img = make_test_image(4, 4)
  let w = img.width
  let h = img.height
  println("原始图片：" + w.to_string() + "x" + h.to_string())
  let gray = to_grayscale(img)
  println("灰度滤镜已应用")
  let inverted = invert(gray)
  println("颜色反转已应用")
  println("滤镜处理完成！")
}

/// 应用信息
pub fn app_info() -> String {
  "aiapp-mb image-filter app: "#);
    extend_chars(&mut out, &clean);
    extend_str(&mut out, r#""
}
"#);
    assert(out@ =~= image_filter_source(desc@));
    string_from_chars(&out)
}

/// The source of the template named `name` for description `desc`, if there is one.
pub open spec fn template_source_of(name: Seq<char>, desc: Seq<char>) -> Option<Seq<char>> {
    if name == "minimal"@ {
        Some(minimal_source(desc))
    } else if name == "calculator"@ {
        Some(calculator_source(desc))
    } else if name == "todo"@ {
        Some(todo_source(desc))
    } else if name == "image-filter"@ {
        Some(image_filter_source(desc))
    } else {
        None
    }
}

/// Return the MoonBit source of the named template.
pub fn get_template_source(name: &str, desc: &str) -> (r: Option<String>)
    ensures
        match r {
            Some(s) => template_source_of(name@, desc@) == Some(s@),
            None => template_source_of(name@, desc@) is None,
        },
{
    if str_eq(name, "minimal") {
        Some(minimal_template(desc))
    } else if str_eq(name, "calculator") {
        Some(calculator_template(desc))
    } else if str_eq(name, "todo") {
        Some(todo_template(desc))
    } else if str_eq(name, "image-filter") {
        Some(image_filter_template(desc))
    } else {
        None
    }
}


// ------------------------------------------------------------------
// Which source each template name gives
// ------------------------------------------------------------------

/// The header line by which a template's source names its template.
pub open spec fn template_header(name: Seq<char>) -> Seq<char> {
    "\n///| 模板："@ + name + "\n"@
}

/// `x + piece + y` holds `p` when `piece` holds it at `off`.
proof fn lemma_piece_contains(x: Seq<char>, piece: Seq<char>, y: Seq<char>, p: Seq<char>, off: int)
    requires
        0 <= off,
        off + p.len() <= piece.len(),
        piece.subrange(off, off + p.len()) == p,
    ensures
        contains_seq(x + piece + y, p),
{
    let s = x + piece + y;
    let i = x.len() + off;
    assert(s.subrange(i, i + p.len()) =~= p);
}


proof fn lemma_minimal_source_content(desc: Seq<char>)
    ensures
        contains_seq(minimal_source(desc), template_header("minimal"@)),
{
    let clean = sanitized(desc);
    let x1 = r#"///| 应用："#@ + desc;
    let y1 = clean + r#"")
}

/// 应用信息
pub fn app_info() -> String {
  "aiapp-mb minimal app: "#@ + clean + r#""
}
"#@;
    assert(minimal_source(desc) =~= x1 + r#"
///| 模板：minimal
///| 由 aiapp-mb 生成

fn main {
  println("Hello from aiapp-mb!")
  println("描述："#@ + y1);
    reveal_strlit(r#"
///| 模板：minimal
///| 由 aiapp-mb 生成

fn main {
  println("Hello from aiapp-mb!")
  println("描述："#);
    reveal_strlit("\n///| 模板：");
    reveal_strlit("\n");
    reveal_strlit("minimal");
    assert(r#"
///| 模板：minimal
///| 由 aiapp-mb 生成

fn main {
  println("Hello from aiapp-mb!")
  println("描述："#@.subrange(0, template_header("minimal"@).len() as int) =~= template_header("minimal"@));
    lemma_piece_contains(x1, r#"
///| 模板：minimal
///| 由 aiapp-mb 生成

fn main {
  println("Hello from aiapp-mb!")
  println("描述："#@, y1, template_header("minimal"@), 0);
}


proof fn lemma_calculator_source_content(desc: Seq<char>)
    ensures
        contains_seq(calculator_source(desc), template_header("calculator"@)),
        contains_seq(calculator_source(desc), "pub fn add(a: Int, b: Int)"@),
        contains_seq(calculator_source(desc), "pub fn div(a: Int, b: Int)"@),
{
    let clean = sanitized(desc);
    let x1 = r#"///| 应用："#@ + desc;
    let y1 = clean + r#"")
  println("支持的运算：+ - * /")
  println("示例：3 + 4 = 7")
}

/// 加法
pub fn add(a: Int, b: Int) -> Int {
  a + b
}

/// 减法
pub fn sub(a: Int, b: Int) -> Int {
  a - b
}

/// 乘法
pub fn mul(a: Int, b: Int) -> Int {
  a * b
}

/// 除法（返回整数结果）
pub fn div(a: Int, b: Int) -> Int {
  a / b
}

/// 应用信息
pub fn app_info() -> String {
  "aiapp-mb calculator app: "#@ + clean + r#""
}
"#@;
    assert(calculator_source(desc) =~= x1 + r#"
///| 模板：calculator
///| 由 aiapp-mb 生成

/// 计算器：支持基本四则运算
fn main {
  println("=== 计算器 ===")
  println("描述："#@ + y1);
    reveal_strlit(r#"
///| 模板：calculator
///| 由 aiapp-mb 生成

/// 计算器：支持基本四则运算
fn main {
  println("=== 计算器 ===")
  println("描述："#);
    reveal_strlit("\n///| 模板：");
    reveal_strlit("\n");
    reveal_strlit("calculator");
    assert(r#"
///| 模板：calculator
///| 由 aiapp-mb 生成

/// 计算器：支持基本四则运算
fn main {
  println("=== 计算器 ===")
  println("描述："#@.subrange(0, template_header("calculator"@).len() as int) =~= template_header("calculator"@));
    lemma_piece_contains(x1, r#"
///| 模板：calculator
///| 由 aiapp-mb 生成

/// 计算器：支持基本四则运算
fn main {
  println("=== 计算器 ===")
  println("描述："#@, y1, template_header("calculator"@), 0);
    let x2 = x1 + r#"
///| 模板：calculator
///| 由 aiapp-mb 生成

/// 计算器：支持基本四则运算
fn main {
  println("=== 计算器 ===")
  println("描述："#@ + clean;
    let y2 = clean + r#""
}
"#@;
    assert(calculator_source(desc) =~= x2 + r#"")
  println("支持的运算：+ - * /")
  println("示例：3 + 4 = 7")
}

/// 加法
pub fn add(a: Int, b: Int) -> Int {
  a + b
}

/// 减法
pub fn sub(a: Int, b: Int) -> Int {
  a - b
}

/// 乘法
pub fn mul(a: Int, b: Int) -> Int {
  a * b
}

/// 除法（返回整数结果）
pub fn div(a: Int, b: Int) -> Int {
  a / b
}

/// 应用信息
pub fn app_info() -> String {
  "aiapp-mb calculator app: "#@ + y2);
    reveal_strlit(r#"")
  println("支持的运算：+ - * /")
  println("示例：3 + 4 = 7")
}

/// 加法
pub fn add(a: Int, b: Int) -> Int {
  a + b
}

/// 减法
pub fn sub(a: Int, b: Int) -> Int {
  a - b
}

/// 乘法
pub fn mul(a: Int, b: Int) -> Int {
  a * b
}

/// 除法（返回整数结果）
pub fn div(a: Int, b: Int) -> Int {
  a / b
}

/// 应用信息
pub fn app_info() -> String {
  "aiapp-mb calculator app: "#);
    reveal_strlit("pub fn add(a: Int, b: Int)");
    assert(r#"")
  println("支持的运算：+ - * /")
  println("示例：3 + 4 = 7")
}

/// 加法
pub fn add(a: Int, b: Int) -> Int {
  a + b
}

/// 减法
pub fn sub(a: Int, b: Int) -> Int {
  a - b
}

/// 乘法
pub fn mul(a: Int, b: Int) -> Int {
  a * b
}

/// 除法（返回整数结果）
pub fn div(a: Int, b: Int) -> Int {
  a / b
}

/// 应用信息
pub fn app_info() -> String {
  "aiapp-mb calculator app: "#@.subrange(66, 92) =~= "pub fn add(a: Int, b: Int)"@);
    lemma_piece_contains(x2, r#"")
  println("支持的运算：+ - * /")
  println("示例：3 + 4 = 7")
}

/// 加法
pub fn add(a: Int, b: Int) -> Int {
  a + b
}

/// 减法
pub fn sub(a: Int, b: Int) -> Int {
  a - b
}

/// 乘法
pub fn mul(a: Int, b: Int) -> Int {
  a * b
}

/// 除法（返回整数结果）
pub fn div(a: Int, b: Int) -> Int {
  a / b
}

/// 应用信息
pub fn app_info() -> String {
  "aiapp-mb calculator app: "#@, y2, "pub fn add(a: Int, b: Int)"@, 66);
    reveal_strlit("pub fn div(a: Int, b: Int)");
    assert(r#"")
  println("支持的运算：+ - * /")
  println("示例：3 + 4 = 7")
}

/// 加法
pub fn add(a: Int, b: Int) -> Int {
  a + b
}

/// 减法
pub fn sub(a: Int, b: Int) -> Int {
  a - b
}

/// 乘法
pub fn mul(a: Int, b: Int) -> Int {
  a * b
}

/// 除法（返回整数结果）
pub fn div(a: Int, b: Int) -> Int {
  a / b
}

/// 应用信息
pub fn app_info() -> String {
  "aiapp-mb calculator app: "#@.subrange(236, 262) =~= "pub fn div(a: Int, b: Int)"@);
    lemma_piece_contains(x2, r#"")
  println("支持的运算：+ - * /")
  println("示例：3 + 4 = 7")
}

/// 加法
pub fn add(a: Int, b: Int) -> Int {
  a + b
}

/// 减法
pub fn sub(a: Int, b: Int) -> Int {
  a - b
}

/// 乘法
pub fn mul(a: Int, b: Int) -> Int {
  a * b
}

/// 除法（返回整数结果）
pub fn div(a: Int, b: Int) -> Int {
  a / b
}

/// 应用信息
pub fn app_info() -> String {
  "aiapp-mb calculator app: "#@, y2, "pub fn div(a: Int, b: Int)"@, 236);
}


proof fn lemma_todo_source_content(desc: Seq<char>)
    ensures
        contains_seq(todo_source(desc), template_header("todo"@)),
        contains_seq(todo_source(desc), "TodoList"@),
{
    let clean = sanitized(desc);
    let x1 = r#"///| 应用："#@ + desc;
    let y1 = clean + r#"")
  let list = TodoList::new()
  list.add("学习 MoonBit")
  list.add("生成 WASM")
  list.add("部署应用")
  list.complete(1)
  println(list.list())
}

/// 应用信息
pub fn app_info() -> String {
  "aiapp-mb todo app: "#@ + clean + r#""
}
"#@;
    assert(todo_source(desc) =~= x1 + r#"
///| 模板：todo
///| 由 aiapp-mb 生成

/// 待办事项条目
struct Todo {
  id: Int
  title: String
  done: Bool
}

/// 待办事项列表
struct TodoList {
  todos: Array[Todo]
  next_id: Int
}

/// 创建一个空的待办列表
pub fn TodoList::new() -> TodoList {
  TodoList { todos: [], next_id: 1 }
}

/// 添加待办事项
pub fn add(self: TodoList, title: String) {
  let todo = Todo { id: self.next_id, title: title, done: false }
  self.todos.push(todo)
  self.next_id = self.next_id + 1
}

/// 标记为已完成
pub fn complete(self: TodoList, id: Int) {
  for todo in self.todos {
    if todo.id == id {
      todo.done = true
    }
  }
}

/// 列出所有待办事项
pub fn list(self: TodoList) -> String {
  let mut result = "待办事项：\n"
  for todo in self.todos {
    let status = if todo.done { "[✓]" } else { "[ ]" }
    result = result + status + " " + todo.id.to_string() + ". " + todo.title + "\n"
  }
  result
}

fn main {
  println("=== 待办事项 ===")
  println("描述："#@ + y1);
    reveal_strlit(r#"
///| 模板：todo
///| 由 aiapp-mb 生成

/// 待办事项条目
struct Todo {
  id: Int
  title: String
  done: Bool
}

/// 待办事项列表
struct TodoList {
  todos: Array[Todo]
  next_id: Int
}

/// 创建一个空的待办列表
pub fn TodoList::new() -> TodoList {
  TodoList { todos: [], next_id: 1 }
}

/// 添加待办事项
pub fn add(self: TodoList, title: String) {
  let todo = Todo { id: self.next_id, title: title, done: false }
  self.todos.push(todo)
  self.next_id = self.next_id + 1
}

/// 标记为已完成
pub fn complete(self: TodoList, id: Int) {
  for todo in self.todos {
    if todo.id == id {
      todo.done = true
    }
  }
}

/// 列出所有待办事项
pub fn list(self: TodoList) -> String {
  let mut result = "待办事项：\n"
  for todo in self.todos {
    let status = if todo.done { "[✓]" } else { "[ ]" }
    result = result + status + " " + todo.id.to_string() + ". " + todo.title + "\n"
  }
  result
}

fn main {
  println("=== 待办事项 ===")
  println("描述："#);
    reveal_strlit("\n///| 模板：");
    reveal_strlit("\n");
    reveal_strlit("todo");
    assert(r#"
///| 模板：todo
///| 由 aiapp-mb 生成

/// 待办事项条目
struct Todo {
  id: Int
  title: String
  done: Bool
}

/// 待办事项列表
struct TodoList {
  todos: Array[Todo]
  next_id: Int
}

/// 创建一个空的待办列表
pub fn TodoList::new() -> TodoList {
  TodoList { todos: [], next_id: 1 }
}

/// 添加待办事项
pub fn add(self: TodoList, title: String) {
  let todo = Todo { id: self.next_id, title: title, done: false }
  self.todos.push(todo)
  self.next_id = self.next_id + 1
}

/// 标记为已完成
pub fn complete(self: TodoList, id: Int) {
  for todo in self.todos {
    if todo.id == id {
      todo.done = true
    }
  }
}

/// 列出所有待办事项
pub fn list(self: TodoList) -> String {
  let mut result = "待办事项：\n"
  for todo in self.todos {
    let status = if todo.done { "[✓]" } else { "[ ]" }
    result = result + status + " " + todo.id.to_string() + ". " + todo.title + "\n"
  }
  result
}

fn main {
  println("=== 待办事项 ===")
  println("描述："#@.subrange(0, template_header("todo"@).len() as int) =~= template_header("todo"@));
    lemma_piece_contains(x1, r#"
///| 模板：todo
///| 由 aiapp-mb 生成

/// 待办事项条目
struct Todo {
  id: Int
  title: String
  done: Bool
}

/// 待办事项列表
struct TodoList {
  todos: Array[Todo]
  next_id: Int
}

/// 创建一个空的待办列表
pub fn TodoList::new() -> TodoList {
  TodoList { todos: [], next_id: 1 }
}

/// 添加待办事项
pub fn add(self: TodoList, title: String) {
  let todo = Todo { id: self.next_id, title: title, done: false }
  self.todos.push(todo)
  self.next_id = self.next_id + 1
}

/// 标记为已完成
pub fn complete(self: TodoList, id: Int) {
  for todo in self.todos {
    if todo.id == id {
      todo.done = true
    }
  }
}

/// 列出所有待办事项
pub fn list(self: TodoList) -> String {
  let mut result = "待办事项：\n"
  for todo in self.todos {
    let status = if todo.done { "[✓]" } else { "[ ]" }
    result = result + status + " " + todo.id.to_string() + ". " + todo.title + "\n"
  }
  result
}

fn main {
  println("=== 待办事项 ===")
  println("描述："#@, y1, template_header("todo"@), 0);
    reveal_strlit("TodoList");
    assert(r#"
///| 模板：todo
///| 由 aiapp-mb 生成

/// 待办事项条目
struct Todo {
  id: Int
  title: String
  done: Bool
}

/// 待办事项列表
struct TodoList {
  todos: Array[Todo]
  next_id: Int
}

/// 创建一个空的待办列表
pub fn TodoList::new() -> TodoList {
  TodoList { todos: [], next_id: 1 }
}

/// 添加待办事项
pub fn add(self: TodoList, title: String) {
  let todo = Todo { id: self.next_id, title: title, done: false }
  self.todos.push(todo)
  self.next_id = self.next_id + 1
}

/// 标记为已完成
pub fn complete(self: TodoList, id: Int) {
  for todo in self.todos {
    if todo.id == id {
      todo.done = true
    }
  }
}

/// 列出所有待办事项
pub fn list(self: TodoList) -> String {
  let mut result = "待办事项：\n"
  for todo in self.todos {
    let status = if todo.done { "[✓]" } else { "[ ]" }
    result = result + status + " " + todo.id.to_string() + ". " + todo.title + "\n"
  }
  result
}

fn main {
  println("=== 待办事项 ===")
  println("描述："#@.subrange(119, 127) =~= "TodoList"@);
    lemma_piece_contains(x1, r#"
///| 模板：todo
///| 由 aiapp-mb 生成

/// 待办事项条目
struct Todo {
  id: Int
  title: String
  done: Bool
}

/// 待办事项列表
struct TodoList {
  todos: Array[Todo]
  next_id: Int
}

/// 创建一个空的待办列表
pub fn TodoList::new() -> TodoList {
  TodoList { todos: [], next_id: 1 }
}

/// 添加待办事项
pub fn add(self: TodoList, title: String) {
  let todo = Todo { id: self.next_id, title: title, done: false }
  self.todos.push(todo)
  self.next_id = self.next_id + 1
}

/// 标记为已完成
pub fn complete(self: TodoList, id: Int) {
  for todo in self.todos {
    if todo.id == id {
      todo.done = true
    }
  }
}

/// 列出所有待办事项
pub fn list(self: TodoList) -> String {
  let mut result = "待办事项：\n"
  for todo in self.todos {
    let status = if todo.done { "[✓]" } else { "[ ]" }
    result = result + status + " " + todo.id.to_string() + ". " + todo.title + "\n"
  }
  result
}

fn main {
  println("=== 待办事项 ===")
  println("描述："#@, y1, "TodoList"@, 119);
}


proof fn lemma_image_filter_source_content(desc: Seq<char>)
    ensures
        contains_seq(image_filter_source(desc), template_header("image-filter"@)),
        contains_seq(image_filter_source(desc), "to_grayscale"@),
{
    let clean = sanitized(desc);
    let x1 = r#"///| 应用："#@ + desc;
    let y1 = clean + r#"")
  let img = make_test_image(4, 4)
  let w = img.width
  let h = img.height
  println("原始图片：" + w.to_string() + "x" + h.to_string())
  let gray = to_grayscale(img)
  println("灰度滤镜已应用")
  let inverted = invert(gray)
  println("颜色反转已应用")
  println("滤镜处理完成！")
}

/// 应用信息
pub fn app_info() -> String {
  "aiapp-mb image-filter app: "#@ + clean + r#""
}
"#@;
    assert(image_filter_source(desc) =~= x1 + r#"
///| 模板：image-filter
///| 由 aiapp-mb 生成

/// 图片像素
struct Pixel {
  r: Int
  g: Int
  b: Int
}

/// 图片
struct Image {
  width: Int
  height: Int
  pixels: Array[Array[Pixel]]
}

/// 创建一张测试图片
pub fn make_test_image(w: Int, h: Int) -> Image {
  let pixels = Array::make(h, Array::make(w, Pixel { r: 0, g: 0, b: 0 }))
  for i in 0..h {
    for j in 0..w {
      pixels[i][j] = Pixel {
        r: ((i * 255) / h).to_int(),
        g: ((j * 255) / w).to_int(),
        b: ((i + j) * 255 / (w + h)).to_int(),
      }
    }
  }
  Image { width: w, height: h, pixels: pixels }
}

/// 灰度滤镜
pub fn to_grayscale(img: Image) -> Image {
  for i in 0..img.height {
    for j in 0..img.width {
      let p = img.pixels[i][j]
      let gray = (p.r + p.g + p.b) / 3
      img.pixels[i][j] = Pixel { r: gray, g: gray, b: gray }
    }
  }
  img
}

/// 反转颜色
pub fn invert(img: Image) -> Image {
  for i in 0..img.height {
    for j in 0..img.width {
      let p = img.pixels[i][j]
      img.pixels[i][j] = Pixel { r: 255 - p.r, g: 255 - p.g, b: 255 - p.b }
    }
  }
  img
}

fn main {
  println("=== 图片滤镜 ===")
  println("描述："#@ + y1);
    reveal_strlit(r#"
///| 模板：image-filter
///| 由 aiapp-mb 生成

/// 图片像素
struct Pixel {
  r: Int
  g: Int
  b: Int
}

/// 图片
struct Image {
  width: Int
  height: Int
  pixels: Array[Array[Pixel]]
}

/// 创建一张测试图片
pub fn make_test_image(w: Int, h: Int) -> Image {
  let pixels = Array::make(h, Array::make(w, Pixel { r: 0, g: 0, b: 0 }))
  for i in 0..h {
    for j in 0..w {
      pixels[i][j] = Pixel {
        r: ((i * 255) / h).to_int(),
        g: ((j * 255) / w).to_int(),
        b: ((i + j) * 255 / (w + h)).to_int(),
      }
    }
  }
  Image { width: w, height: h, pixels: pixels }
}

/// 灰度滤镜
pub fn to_grayscale(img: Image) -> Image {
  for i in 0..img.height {
    for j in 0..img.width {
      let p = img.pixels[i][j]
      let gray = (p.r + p.g + p.b) / 3
      img.pixels[i][j] = Pixel { r: gray, g: gray, b: gray }
    }
  }
  img
}

/// 反转颜色
pub fn invert(img: Image) -> Image {
  for i in 0..img.height {
    for j in 0..img.width {
      let p = img.pixels[i][j]
      img.pixels[i][j] = Pixel { r: 255 - p.r, g: 255 - p.g, b: 255 - p.b }
    }
  }
  img
}

fn main {
  println("=== 图片滤镜 ===")
  println("描述："#);
    reveal_strlit("\n///| 模板：");
    reveal_strlit("\n");
    reveal_strlit("image-filter");
    assert(r#"
///| 模板：image-filter
///| 由 aiapp-mb 生成

/// 图片像素
struct Pixel {
  r: Int
  g: Int
  b: Int
}

/// 图片
struct Image {
  width: Int
  height: Int
  pixels: Array[Array[Pixel]]
}

/// 创建一张测试图片
pub fn make_test_image(w: Int, h: Int) -> Image {
  let pixels = Array::make(h, Array::make(w, Pixel { r: 0, g: 0, b: 0 }))
  for i in 0..h {
    for j in 0..w {
      pixels[i][j] = Pixel {
        r: ((i * 255) / h).to_int(),
        g: ((j * 255) / w).to_int(),
        b: ((i + j) * 255 / (w + h)).to_int(),
      }
    }
  }
  Image { width: w, height: h, pixels: pixels }
}

/// 灰度滤镜
pub fn to_grayscale(img: Image) -> Image {
  for i in 0..img.height {
    for j in 0..img.width {
      let p = img.pixels[i][j]
      let gray = (p.r + p.g + p.b) / 3
      img.pixels[i][j] = Pixel { r: gray, g: gray, b: gray }
    }
  }
  img
}

/// 反转颜色
pub fn invert(img: Image) -> Image {
  for i in 0..img.height {
    for j in 0..img.width {
      let p = img.pixels[i][j]
      img.pixels[i][j] = Pixel { r: 255 - p.r, g: 255 - p.g, b: 255 - p.b }
    }
  }
  img
}

fn main {
  println("=== 图片滤镜 ===")
  println("描述："#@.subrange(0, template_header("image-filter"@).len() as int) =~= template_header("image-filter"@));
    lemma_piece_contains(x1, r#"
///| 模板：image-filter
///| 由 aiapp-mb 生成

/// 图片像素
struct Pixel {
  r: Int
  g: Int
  b: Int
}

/// 图片
struct Image {
  width: Int
  height: Int
  pixels: Array[Array[Pixel]]
}

/// 创建一张测试图片
pub fn make_test_image(w: Int, h: Int) -> Image {
  let pixels = Array::make(h, Array::make(w, Pixel { r: 0, g: 0, b: 0 }))
  for i in 0..h {
    for j in 0..w {
      pixels[i][j] = Pixel {
        r: ((i * 255) / h).to_int(),
        g: ((j * 255) / w).to_int(),
        b: ((i + j) * 255 / (w + h)).to_int(),
      }
    }
  }
  Image { width: w, height: h, pixels: pixels }
}

/// 灰度滤镜
pub fn to_grayscale(img: Image) -> Image {
  for i in 0..img.height {
    for j in 0..img.width {
      let p = img.pixels[i][j]
      let gray = (p.r + p.g + p.b) / 3
      img.pixels[i][j] = Pixel { r: gray, g: gray, b: gray }
    }
  }
  img
}

/// 反转颜色
pub fn invert(img: Image) -> Image {
  for i in 0..img.height {
    for j in 0..img.width {
      let p = img.pixels[i][j]
      img.pixels[i][j] = Pixel { r: 255 - p.r, g: 255 - p.g, b: 255 - p.b }
    }
  }
  img
}

fn main {
  println("=== 图片滤镜 ===")
  println("描述："#@, y1, template_header("image-filter"@), 0);
    reveal_strlit("to_grayscale");
    assert(r#"
///| 模板：image-filter
///| 由 aiapp-mb 生成

/// 图片像素
struct Pixel {
  r: Int
  g: Int
  b: Int
}

/// 图片
struct Image {
  width: Int
  height: Int
  pixels: Array[Array[Pixel]]
}

/// 创建一张测试图片
pub fn make_test_image(w: Int, h: Int) -> Image {
  let pixels = Array::make(h, Array::make(w, Pixel { r: 0, g: 0, b: 0 }))
  for i in 0..h {
    for j in 0..w {
      pixels[i][j] = Pixel {
        r: ((i * 255) / h).to_int(),
        g: ((j * 255) / w).to_int(),
        b: ((i + j) * 255 / (w + h)).to_int(),
      }
    }
  }
  Image { width: w, height: h, pixels: pixels }
}

/// 灰度滤镜
pub fn to_grayscale(img: Image) -> Image {
  for i in 0..img.height {
    for j in 0..img.width {
      let p = img.pixels[i][j]
      let gray = (p.r + p.g + p.b) / 3
      img.pixels[i][j] = Pixel { r: gray, g: gray, b: gray }
    }
  }
  img
}

/// 反转颜色
pub fn invert(img: Image) -> Image {
  for i in 0..img.height {
    for j in 0..img.width {
      let p = img.pixels[i][j]
      img.pixels[i][j] = Pixel { r: 255 - p.r, g: 255 - p.g, b: 255 - p.b }
    }
  }
  img
}

fn main {
  println("=== 图片滤镜 ===")
  println("描述："#@.subrange(588, 600) =~= "to_grayscale"@);
    lemma_piece_contains(x1, r#"
///| 模板：image-filter
///| 由 aiapp-mb 生成

/// 图片像素
struct Pixel {
  r: Int
  g: Int
  b: Int
}

/// 图片
struct Image {
  width: Int
  height: Int
  pixels: Array[Array[Pixel]]
}

/// 创建一张测试图片
pub fn make_test_image(w: Int, h: Int) -> Image {
  let pixels = Array::make(h, Array::make(w, Pixel { r: 0, g: 0, b: 0 }))
  for i in 0..h {
    for j in 0..w {
      pixels[i][j] = Pixel {
        r: ((i * 255) / h).to_int(),
        g: ((j * 255) / w).to_int(),
        b: ((i + j) * 255 / (w + h)).to_int(),
      }
    }
  }
  Image { width: w, height: h, pixels: pixels }
}

/// 灰度滤镜
pub fn to_grayscale(img: Image) -> Image {
  for i in 0..img.height {
    for j in 0..img.width {
      let p = img.pixels[i][j]
      let gray = (p.r + p.g + p.b) / 3
      img.pixels[i][j] = Pixel { r: gray, g: gray, b: gray }
    }
  }
  img
}

/// 反转颜色
pub fn invert(img: Image) -> Image {
  for i in 0..img.height {
    for j in 0..img.width {
      let p = img.pixels[i][j]
      img.pixels[i][j] = Pixel { r: 255 - p.r, g: 255 - p.g, b: 255 - p.b }
    }
  }
  img
}

fn main {
  println("=== 图片滤镜 ===")
  println("描述："#@, y1, "to_grayscale"@, 588);
}


/// Each template name gives the source of that very template: its header line names the
/// template it was asked for; the calculator's source defines `add` and `div`, the to-do
/// list's defines `TodoList`, and the image filter's defines `to_grayscale`.
pub proof fn lemma_template_sources_match_names(desc: Seq<char>)
    ensures
        forall|i: int|
            0 <= i < template_table().len() ==> (template_source_of(
                #[trigger] template_table()[i].0,
                desc,
            ) matches Some(src) && contains_seq(src, template_header(template_table()[i].0))),
        template_source_of("calculator"@, desc) matches Some(src) && contains_seq(
            src,
            "pub fn add(a: Int, b: Int)"@,
        ) && contains_seq(src, "pub fn div(a: Int, b: Int)"@),
        template_source_of("todo"@, desc) matches Some(src) && contains_seq(src, "TodoList"@),
        template_source_of("image-filter"@, desc) matches Some(src) && contains_seq(
            src,
            "to_grayscale"@,
        ),
{
    lemma_minimal_source_content(desc);
    lemma_calculator_source_content(desc);
    lemma_todo_source_content(desc);
    lemma_image_filter_source_content(desc);
    reveal_strlit("minimal");
    reveal_strlit("calculator");
    reveal_strlit("todo");
    reveal_strlit("image-filter");
    assert forall|i: int| 0 <= i < template_table().len() implies (template_source_of(
        #[trigger] template_table()[i].0,
        desc,
    ) matches Some(src) && contains_seq(src, template_header(template_table()[i].0))) by {
        assert(0 <= i < 4);
    }
}

} // verus!
