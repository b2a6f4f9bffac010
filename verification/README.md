# renderenko

A web service that draws Minecraft-style player skins: a client uploads a PNG texture
and the view parameters as a multipart form, and gets back a rendered PNG or a JSON
refusal.

- `src/` is the verified library: the refusals and their texts (`response`,
  `multipart`), the checks a render request goes through (`render`: each step as an
  executable function, and the whole request's first refusal as `request_decision`,
  with lemmas that a refusal stands whatever the later steps give; `request` takes a
  request through the steps one type at a time, each refusal being the whole request's
  first),
  and the number and text helpers they need (`text`). Decoding and encoding PNG files
  goes through the `image` crate, status codes through `actix_web::http`.
- `app/` is the HTTP server (actix-web): it reads the form and the uploaded file, makes
  the floating-point range comparisons, calls the renderer (`rend`) and sends the
  answers.
