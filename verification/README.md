# egui_elements

Themes, widget state rules and secure-input components for egui, with the
decision logic proved against its contracts.

- `src/` is the verified library: colours and palettes (`color`, `themes`),
  theme kinds, the frame-colour remapping that keeps derived frames in step
  with a palette, and the egui-elegance palette and its install decision
  (`theme`, `utils`), gradients and fills (`gradient`), the
  overlay counter that decides how dark the backdrop behind open windows is
  (`overlay`), hover/press state selection for widget visuals (`visuals`), the
  themed frame builder, badge corners and modal focus handling (`widgets`), and
  the virtual keyboard, credentials form focus, and QR-scanner capture and
  decoding logic (`components`). Calls into egui, secure-types and rqrr go through small
  trusted wrappers whose doc comments say what is assumed of them.
- `app/` is ordinary Rust around the library: painting with egui, installing
  themes into a context, the windows and viewports, screen capture and pointer
  input, and the floating-point colour maths.
- `tests/` runs the library on concrete values.
